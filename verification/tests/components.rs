use femark::code_format::{
    highlight_string_snippet, Color, FontStyle, IncludeBackground, Style, StyleRun, StyledPrintCx,
};
use femark::langs::{Lang, Langs};
use femark::parser::{generate_toc, TocEntry};
use femark::syntect::SyntectFormatter;
use femark::{highlight_code, HighlightError};

fn style(fg: Color, bg: Color) -> Style {
    Style {
        foreground: fg,
        background: bg,
        font_style: FontStyle { bold: false, italic: false, underline: false },
    }
}

#[test]
fn test_generate_toc_empty() {
    let toc: Vec<TocEntry> = Vec::new();
    assert!(generate_toc(&toc).is_none());
}

#[test]
fn test_generate_toc_entries() {
    let toc = vec![
        TocEntry { level: 1, text: String::from("The basics"), slug: String::from("the-basics") },
        TocEntry { level: 2, text: String::from("More"), slug: String::from("more") },
    ];
    assert_eq!(
        generate_toc(&toc).unwrap(),
        "<ul class=\"table-of-contents\"><li class=\"toc-entry level-1\"><a href=\"#the-basics\">The basics</a></li><li class=\"toc-entry level-2\"><a href=\"#more\">More</a></li></ul>"
    );
}

#[test]
fn test_run_coalescing_single_span() {
    let fg = Color { r: 1, g: 2, b: 3, a: 255 };
    let bg = Color { r: 0x2b, g: 0x30, b: 0x3b, a: 255 };
    let s = style(fg, bg);
    let runs = vec![
        StyleRun { style: s, text: String::from("one") },
        StyleRun { style: s, text: String::from("two") },
    ];
    let mut spcx = StyledPrintCx::new(IncludeBackground::IfDifferent(bg));
    let mut out = String::new();
    spcx.styles_to_coloured_html(&mut out, &runs);
    spcx.finish(&mut out);
    assert_eq!(out.matches("<span").count(), 1);
    assert_eq!(out, "<span style=\"color:#010203;\">onetwo</span>");
}

#[test]
fn test_blank_run_absorbed_on_same_background() {
    let bg = Color { r: 0x2b, g: 0x30, b: 0x3b, a: 255 };
    let s1 = style(Color { r: 1, g: 2, b: 3, a: 255 }, bg);
    let s2 = style(Color { r: 9, g: 9, b: 9, a: 255 }, bg);
    let runs = vec![
        StyleRun { style: s1, text: String::from("a") },
        StyleRun { style: s2, text: String::from("   ") },
        StyleRun { style: s1, text: String::from("b") },
    ];
    let mut spcx = StyledPrintCx::new(IncludeBackground::IfDifferent(bg));
    let mut out = String::new();
    spcx.styles_to_coloured_html(&mut out, &runs);
    spcx.finish(&mut out);
    assert_eq!(out.matches("<span").count(), 1);
    assert_eq!(out, "<span style=\"color:#010203;\">a   b</span>");
}

#[test]
fn test_snippet_markup() {
    let bg = Color { r: 0x2b, g: 0x30, b: 0x3b, a: 255 };
    let fg = Color { r: 1, g: 2, b: 3, a: 255 };
    let lines = vec![vec![StyleRun { style: style(fg, bg), text: String::from("a<b") }]];
    let out = highlight_string_snippet(&lines, bg);
    assert_eq!(
        out,
        "<pre style=\"background-color:#2b303b;\">\n<span style=\"color:#010203;\">a&lt;b\n</span></pre>\n"
    );
}

#[test]
fn test_snippet_alpha_and_flags() {
    let bg = Color { r: 0, g: 0, b: 0, a: 255 };
    let fg = Color { r: 0xaa, g: 0xbb, b: 0xcc, a: 0x80 };
    let other_bg = Color { r: 1, g: 1, b: 1, a: 255 };
    let s = Style {
        foreground: fg,
        background: other_bg,
        font_style: FontStyle { bold: true, italic: true, underline: true },
    };
    let lines = vec![vec![StyleRun { style: s, text: String::from("x") }]];
    let out = highlight_string_snippet(&lines, bg);
    assert_eq!(
        out,
        "<pre style=\"background-color:#000000;\">\n<span style=\"background-color:#010101;text-decoration:underline;font-weight:bold;font-style:italic;color:#aabbcc80;\">x\n</span></pre>\n"
    );
}

#[test]
fn test_syntect_formatter_fallback() {
    let bg = Color { r: 0, g: 0, b: 0, a: 255 };
    let f = SyntectFormatter::new().token("nosuchlang");
    let out = f.highlight_snippet("a<b", None, bg);
    assert_eq!(out, "<pre><code>a<b</code></pre>");
}

#[test]
fn test_benign_errors() {
    assert!(HighlightError::NoLang.benign());
    assert!(HighlightError::NoHighlighter.benign());
    assert!(!HighlightError::CouldNotBuildHighlighter(String::from("x")).benign());
    assert!(!HighlightError::StringGenerationError(String::from("x")).benign());
}

#[test]
fn test_highlight_code_errors() {
    let mut out = String::new();
    assert!(matches!(
        highlight_code(&mut out, "x", None),
        Err(HighlightError::NoLang)
    ));
    assert_eq!(out, "");
    let plain = Lang { conf: None, name: "Shell session" };
    assert!(matches!(
        highlight_code(&mut out, "x", Some(&plain)),
        Err(HighlightError::NoHighlighter)
    ));
    assert_eq!(out, "");
}

#[test]
fn test_highlight_code_renders_markup() {
    let langs = Langs::new().unwrap();
    let html = langs.get("html").unwrap();
    let mut out = String::new();
    highlight_code(&mut out, "<b>hi</b>", Some(html)).unwrap();
    assert!(out.contains("<i class=hh"));
    assert!(out.contains("&lt;"));
    assert!(!out.contains("<b>"));
}

#[test]
fn test_registry_lookup() {
    let langs = Langs::new().unwrap();
    let js = langs.get("js").unwrap();
    assert_eq!(js.name, "JavaScript code");
    assert!(js.conf.is_some());
    let raw = langs.get("raw").unwrap();
    assert_eq!(raw.name, "");
    assert!(raw.conf.is_none());
    assert!(langs.get("nosuchlang").is_none());
}
