use git_diff_tui::git::{DiffLine, DiffLineKind};
use git_diff_tui::highlight::{marker_for, merge_sides, syntect_to_ratatui_style, HighlightedLine, Highlighter, SpanStyle, SyntaxStyle, TermColor};

fn highlighter() -> Highlighter {
    Highlighter::new()
}

/// The syntax colours (foreground) and texts of a line, without its marker.
fn body_syntax(line: &HighlightedLine) -> Vec<(Option<TermColor>, String)> {
    line.spans[1..].iter().map(|(style, text)| (style.fg, text.clone())).collect()
}

fn render(line: &HighlightedLine) -> String {
    line.spans.iter().map(|(_, t)| t.as_str()).collect()
}

#[test]
fn preserves_text_of_diff_lines() {
    let lines = vec![
        DiffLine { kind: DiffLineKind::HunkHeader, content: "@@ -1,3 +1,3 @@ fn main() {\n".to_string() },
        DiffLine { kind: DiffLineKind::Deletion, content: "    let x = 0;\n".to_string() },
        DiffLine { kind: DiffLineKind::Addition, content: "    let x = 1;\n".to_string() },
        DiffLine { kind: DiffLineKind::Context, content: "    println!(\"{x}\");\n".to_string() },
    ];

    let out = highlighter().highlight_diff(&lines, Some("src/main.rs"));
    let rendered: Vec<String> = out.iter().map(render).collect();

    assert_eq!(
        rendered,
        vec![
            "@@ -1,3 +1,3 @@ fn main() {\n",
            "-    let x = 0;\n",
            "+    let x = 1;\n",
            "     println!(\"{x}\");\n",
        ]
    );
}

#[test]
fn prefixes_lines_with_diff_marker() {
    let lines = vec![
        DiffLine { kind: DiffLineKind::Deletion, content: "let x = 0;\n".to_string() },
        DiffLine { kind: DiffLineKind::Addition, content: "let x = 1;\n".to_string() },
        DiffLine { kind: DiffLineKind::Context, content: "let y = 2;\n".to_string() },
    ];

    let out = highlighter().highlight_diff(&lines, Some("src/main.rs"));
    let rendered: Vec<String> = out.iter().map(render).collect();

    assert_eq!(rendered, vec!["-let x = 0;\n", "+let x = 1;\n", " let y = 2;\n"]);
}

#[test]
fn deletion_does_not_leak_parser_state_into_addition() {
    let addition = DiffLine { kind: DiffLineKind::Addition, content: "let ok = 1;\n".to_string() };
    let deletion_with_open_string = DiffLine { kind: DiffLineKind::Deletion, content: "let s = \"unterminated;\n".to_string() };

    let h = highlighter();
    let alone = h.highlight_diff(std::slice::from_ref(&addition), Some("a.rs"));
    let after_deletion = h.highlight_diff(&[deletion_with_open_string, addition], Some("a.rs"));

    assert_eq!(after_deletion[1].spans, alone[0].spans);
}

#[test]
fn does_not_parse_headers_as_source_code() {
    let header = DiffLine { kind: DiffLineKind::HunkHeader, content: "@@ -1,3 +1,3 @@ fn main() {\n".to_string() };
    let context = DiffLine { kind: DiffLineKind::Context, content: "let x = 1;\n".to_string() };

    let h = highlighter();
    let alone = h.highlight_diff(std::slice::from_ref(&context), Some("a.rs"));
    let after_header = h.highlight_diff(&[header, context], Some("a.rs"));

    assert_eq!(after_header[0].spans.len(), 1);
    assert_eq!(after_header[1].spans, alone[0].spans);
}

#[test]
fn context_advances_both_sides() {
    let comment_opens = DiffLine { kind: DiffLineKind::Context, content: "/* comment starts here\n".to_string() };
    let inside = "still inside the comment\n".to_string();

    let out = highlighter().highlight_diff(
        &[
            comment_opens,
            DiffLine { kind: DiffLineKind::Deletion, content: inside.clone() },
            DiffLine { kind: DiffLineKind::Addition, content: inside },
        ],
        Some("a.rs"),
    );

    assert_eq!(body_syntax(&out[1]), body_syntax(&out[2]));
}

#[test]
fn falls_back_to_plain_text_for_unknown_extension() {
    let lines = vec![DiffLine { kind: DiffLineKind::Context, content: "hello\n".to_string() }];
    let out = highlighter().highlight_diff(&lines, Some("data.unknownext"));
    assert_eq!(out.len(), 1);
    assert_eq!(render(&out[0]), " hello\n");
}

#[test]
fn handles_missing_file_path() {
    let lines = vec![DiffLine { kind: DiffLineKind::Context, content: "plain\n".to_string() }];
    let out = highlighter().highlight_diff(&lines, None);
    assert_eq!(out.len(), 1);
    assert_eq!(render(&out[0]), " plain\n");
}

#[test]
fn markers_and_backgrounds() {
    assert_eq!(marker_for(DiffLineKind::Addition), "+");
    assert_eq!(marker_for(DiffLineKind::Deletion), "-");
    assert_eq!(marker_for(DiffLineKind::Context), " ");
    assert_eq!(marker_for(DiffLineKind::HunkHeader), "");
    assert_eq!(marker_for(DiffLineKind::FileHeader), "");

    let lines = vec![
        DiffLine { kind: DiffLineKind::Addition, content: "x\n".to_string() },
        DiffLine { kind: DiffLineKind::Deletion, content: "y\n".to_string() },
        DiffLine { kind: DiffLineKind::Context, content: "z\n".to_string() },
    ];
    let out = highlighter().highlight_diff(&lines, Some("a.txt"));
    assert_eq!(out[0].spans[0].0, SpanStyle { fg: Some(TermColor::Green), bg: Some(TermColor::Rgb(0, 60, 0)) });
    assert_eq!(out[1].spans[0].0, SpanStyle { fg: Some(TermColor::Red), bg: Some(TermColor::Rgb(80, 0, 0)) });
    assert_eq!(out[2].spans[0].0, SpanStyle { fg: Some(TermColor::White), bg: Some(TermColor::Reset) });
    for (style, _) in &out[0].spans[1..] {
        assert_eq!(style.bg, Some(TermColor::Rgb(0, 60, 0)));
    }
    for (style, _) in &out[1].spans[1..] {
        assert_eq!(style.bg, Some(TermColor::Rgb(80, 0, 0)));
    }
}

#[test]
fn headers_use_the_theme_colours() {
    let lines = vec![
        DiffLine { kind: DiffLineKind::FileHeader, content: "diff --git a/x b/x\n".to_string() },
        DiffLine { kind: DiffLineKind::HunkHeader, content: "@@ -1 +1 @@\n".to_string() },
    ];
    let out = highlighter().highlight_diff(&lines, Some("x.rs"));
    assert_eq!(out[0].spans.len(), 1);
    assert_eq!(out[0].spans[0].1, "diff --git a/x b/x\n");
    // base16-ocean.dark: foreground #c0c5ce, background #2b303b
    assert_eq!(out[0].spans[0].0, SpanStyle { fg: Some(TermColor::Rgb(0xc0, 0xc5, 0xce)), bg: Some(TermColor::Rgb(0x2b, 0x30, 0x3b)) });
    assert_eq!(out[1].spans[0].0, SpanStyle { fg: Some(TermColor::Rgb(0xc0, 0xc5, 0xce)), bg: Some(TermColor::Rgb(40, 40, 80)) });
}

#[test]
fn style_conversion_keeps_or_replaces_background() {
    let style = SyntaxStyle { fg: (1, 2, 3), bg: (4, 5, 6) };
    assert_eq!(syntect_to_ratatui_style(style, None), SpanStyle { fg: Some(TermColor::Rgb(1, 2, 3)), bg: Some(TermColor::Rgb(4, 5, 6)) });
    assert_eq!(syntect_to_ratatui_style(style, Some(TermColor::Red)), SpanStyle { fg: Some(TermColor::Rgb(1, 2, 3)), bg: Some(TermColor::Red) });
}

#[test]
fn rust_code_gets_more_than_one_colour() {
    let lines = vec![DiffLine { kind: DiffLineKind::Addition, content: "fn main() { let s = \"x\"; }\n".to_string() }];
    let out = highlighter().highlight_diff(&lines, Some("src/lib.rs"));
    let colours: std::collections::HashSet<String> = out[0].spans[1..].iter().map(|(s, _)| format!("{:?}", s.fg)).collect();
    assert!(colours.len() > 1, "{colours:?}");
}

#[test]
fn loads_default_syntaxes_and_theme() {
    let h = highlighter();
    assert!(h.syntax_set().find_syntax_by_extension("rs").is_some());
    assert!(h.theme_set().themes.contains_key("base16-ocean.dark"));
}

#[test]
fn failed_highlighting_keeps_the_text() {
    let lines = vec![
        DiffLine { kind: DiffLineKind::HunkHeader, content: "@@ -1 +1 @@\n".to_string() },
        DiffLine { kind: DiffLineKind::Deletion, content: "old\n".to_string() },
        DiffLine { kind: DiffLineKind::Addition, content: "new\n".to_string() },
        DiffLine { kind: DiffLineKind::Context, content: "both\n".to_string() },
    ];
    let plain = SyntaxStyle { fg: (1, 2, 3), bg: (4, 5, 6) };
    let old_res: Vec<Option<Vec<(SyntaxStyle, String)>>> = vec![None, None];
    let new_res: Vec<Option<Vec<(SyntaxStyle, String)>>> = vec![None, None];
    let out = merge_sides(&lines, &old_res, &new_res, plain);
    let texts: Vec<String> = out.iter().map(|l| l.spans.iter().map(|(_, t)| t.as_str()).collect()).collect();
    assert_eq!(texts, vec!["@@ -1 +1 @@\n", "-old\n", "+new\n", " both\n"]);
    assert_eq!(out[1].spans.len(), 2);
    assert_eq!(out[1].spans[1].0.fg, Some(TermColor::Rgb(1, 2, 3)));
}
