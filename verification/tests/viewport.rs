use git_diff_tui::git::{DiffLine, DiffLineKind};
use git_diff_tui::viewport::DiffViewport;

/// A diff of `line_count` lines, each `width` columns wide.
fn diff_of(line_count: usize, width: usize) -> Vec<DiffLine> {
    (0..line_count)
        .map(|_| DiffLine {
            kind: DiffLineKind::Context,
            content: format!("{}\n", "x".repeat(width)),
        })
        .collect()
}

/// A viewport scrolled on both axes.
fn scrolled_viewport() -> DiffViewport {
    let mut viewport = DiffViewport::new();
    viewport.set_content(&diff_of(100, 200));
    viewport.set_visible_size(20, 10);
    viewport.scroll_down(50);
    viewport.scroll_right(50);
    assert_eq!(viewport.offset(), (50, 50));
    viewport
}

#[test]
fn does_not_scroll_when_content_fits_in_viewport() {
    let mut viewport = DiffViewport::new();
    viewport.set_content(&diff_of(5, 10));
    viewport.set_visible_size(80, 10);

    viewport.scroll_down(10);

    assert_eq!(viewport.offset(), (0, 0));
}

#[test]
fn scroll_to_end_places_last_line_at_bottom_of_viewport() {
    let mut viewport = DiffViewport::new();
    viewport.set_content(&diff_of(100, 10));
    viewport.set_visible_size(80, 10);

    viewport.scroll_to_end();

    assert_eq!(viewport.offset(), (90, 0));
}

#[test]
fn stops_vertical_scroll_at_last_line() {
    let mut viewport = DiffViewport::new();
    viewport.set_content(&diff_of(100, 10));
    viewport.set_visible_size(80, 10);

    viewport.scroll_down(1000);

    assert_eq!(viewport.offset(), (90, 0));
}

#[test]
fn stops_horizontal_scroll_at_longest_line() {
    let mut viewport = DiffViewport::new();
    viewport.set_content(&diff_of(1, 20));
    viewport.set_visible_size(10, 10);

    viewport.scroll_right(1000);

    assert_eq!(viewport.offset(), (0, 10));
}

#[test]
fn clamps_offset_when_content_shrinks() {
    let mut viewport = DiffViewport::new();
    viewport.set_content(&diff_of(100, 10));
    viewport.set_visible_size(80, 10);
    viewport.scroll_to_end();
    assert_eq!(viewport.offset(), (90, 0));

    viewport.set_content(&diff_of(12, 10));

    assert_eq!(viewport.offset(), (2, 0));
}

#[test]
fn reset_returns_to_top_left() {
    let mut viewport = scrolled_viewport();

    viewport.reset();

    assert_eq!(viewport.offset(), (0, 0));
}

#[test]
fn scroll_to_top_keeps_horizontal_offset() {
    let mut viewport = scrolled_viewport();

    viewport.scroll_to_top();

    assert_eq!(viewport.offset(), (0, 50));
}

#[test]
fn scroll_to_left_keeps_vertical_offset() {
    let mut viewport = scrolled_viewport();

    viewport.scroll_to_left();

    assert_eq!(viewport.offset(), (50, 0));
}

#[test]
fn scroll_up_undoes_scroll_down_away_from_the_end() {
    let mut viewport = DiffViewport::new();
    viewport.set_content(&diff_of(100, 10));
    viewport.set_visible_size(80, 10);
    viewport.scroll_down(30);
    viewport.scroll_down(7);
    viewport.scroll_up(7);
    assert_eq!(viewport.offset(), (30, 0));
    viewport.scroll_up(1000);
    assert_eq!(viewport.offset(), (0, 0));
}

#[test]
fn growing_the_view_pulls_the_offset_back() {
    let mut viewport = DiffViewport::new();
    viewport.set_content(&diff_of(30, 50));
    viewport.set_visible_size(10, 10);
    viewport.scroll_to_end();
    viewport.scroll_right(100);
    assert_eq!(viewport.offset(), (20, 40));
    viewport.set_visible_size(45, 25);
    assert_eq!(viewport.offset(), (5, 5));
    viewport.set_visible_size(80, 40);
    assert_eq!(viewport.offset(), (0, 0));
}

#[test]
fn width_ignores_the_line_terminator_and_counts_characters() {
    let line = DiffLine { kind: DiffLineKind::Addition, content: "\u{3042}\u{3044}x\n".to_string() };
    assert_eq!(line.display_width(), 3);
    let bare = DiffLine { kind: DiffLineKind::Addition, content: "ab".to_string() };
    assert_eq!(bare.display_width(), 2);
    let empty = DiffLine { kind: DiffLineKind::Context, content: String::new() };
    assert_eq!(empty.display_width(), 0);
}

#[test]
fn an_empty_diff_cannot_be_scrolled() {
    let mut viewport = DiffViewport::new();
    viewport.set_content(&[]);
    viewport.set_visible_size(10, 10);
    viewport.scroll_to_end();
    viewport.scroll_right(5);
    assert_eq!(viewport.offset(), (0, 0));
}
