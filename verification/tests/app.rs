use std::cell::RefCell;
use std::collections::VecDeque;

use git_diff_tui::app::{key_command, wheel_command, App, KeyCode, KeyCommand, KeyEvent, KeyModifiers, WheelTurn};
use git_diff_tui::git::{ChangeKind, DiffLine, DiffLineKind, DiffSource, FileEntry, SourceError, Stage};

/// A diff source that replays prepared answers, then answers with empty successes.
#[derive(Default)]
struct ScriptedSource {
    files: RefCell<VecDeque<Result<Vec<FileEntry>, SourceError>>>,
    diffs: RefCell<VecDeque<Result<Vec<DiffLine>, SourceError>>>,
}

impl ScriptedSource {
    fn new() -> Self {
        Self::default()
    }

    fn then_files(self, result: Result<Vec<FileEntry>, SourceError>) -> Self {
        self.files.borrow_mut().push_back(result);
        self
    }

    fn then_diff(self, result: Result<Vec<DiffLine>, SourceError>) -> Self {
        self.diffs.borrow_mut().push_back(result);
        self
    }
}

impl DiffSource for ScriptedSource {
    fn changed_files(&self) -> Result<Vec<FileEntry>, SourceError> {
        self.files.borrow_mut().pop_front().unwrap_or(Ok(Vec::new()))
    }

    fn file_diff(&self, _entry: &FileEntry) -> Result<Vec<DiffLine>, SourceError> {
        self.diffs.borrow_mut().pop_front().unwrap_or(Ok(Vec::new()))
    }
}

fn error(message: &str) -> SourceError {
    SourceError { message: message.to_string() }
}

fn entry(path: &str) -> FileEntry {
    FileEntry { path: path.to_string(), kind: ChangeKind::Modified, stage: Stage::Unstaged }
}

fn diff_line(content: &str) -> DiffLine {
    DiffLine { kind: DiffLineKind::Context, content: content.to_string() }
}

fn key(c: char) -> KeyEvent {
    KeyEvent::new(KeyCode::Char(c), KeyModifiers::none())
}

#[test]
fn records_error_when_listing_files_fails() {
    let source = ScriptedSource::new().then_files(Err(error("index is corrupt")));

    let app = App::new(source);

    assert_eq!(app.last_error.as_deref(), Some("listing changed files: index is corrupt"));
    assert!(app.files.is_empty());
}

#[test]
fn records_error_when_reading_diff_fails() {
    let source = ScriptedSource::new()
        .then_files(Ok(vec![entry("src/main.rs")]))
        .then_diff(Err(error("object not found")));

    let app = App::new(source);

    assert_eq!(app.last_error.as_deref(), Some("reading diff: object not found"));
    assert!(app.highlighted_diff.is_empty());
}

#[test]
fn clears_error_after_successful_refresh() {
    let source = ScriptedSource::new()
        .then_files(Err(error("index is corrupt")))
        .then_files(Ok(vec![entry("src/main.rs")]))
        .then_diff(Ok(vec![diff_line("fn main() {}\n")]));
    let mut app = App::new(source);
    assert!(app.last_error.is_some());

    app.handle_key(KeyEvent::new(KeyCode::Char('r'), KeyModifiers::none()));

    assert_eq!(app.last_error, None);
    assert_eq!(app.files.len(), 1);
    assert!(!app.highlighted_diff.is_empty());
}

#[test]
fn has_no_error_when_everything_succeeds() {
    let source = ScriptedSource::new()
        .then_files(Ok(vec![entry("src/main.rs")]))
        .then_diff(Ok(vec![diff_line("fn main() {}\n")]));

    let app = App::new(source);

    assert_eq!(app.last_error, None);
    assert_eq!(app.files.len(), 1);
}

#[test]
fn key_bindings() {
    assert_eq!(key_command(key('q')), KeyCommand::Quit);
    assert_eq!(key_command(KeyEvent::new(KeyCode::Esc, KeyModifiers::none())), KeyCommand::Quit);
    assert_eq!(key_command(key('j')), KeyCommand::NextFile);
    assert_eq!(key_command(KeyEvent::new(KeyCode::Down, KeyModifiers::none())), KeyCommand::NextFile);
    assert_eq!(key_command(key('k')), KeyCommand::PrevFile);
    assert_eq!(key_command(key('J')), KeyCommand::ScrollDown(10));
    assert_eq!(key_command(KeyEvent::new(KeyCode::PageUp, KeyModifiers::none())), KeyCommand::ScrollUp(10));
    assert_eq!(key_command(KeyEvent::new(KeyCode::Char('d'), KeyModifiers::control())), KeyCommand::ScrollDown(10));
    assert_eq!(key_command(KeyEvent::new(KeyCode::Char('u'), KeyModifiers::control())), KeyCommand::ScrollUp(10));
    assert_eq!(key_command(key('d')), KeyCommand::Nothing);
    assert_eq!(key_command(key('l')), KeyCommand::ScrollRight(4));
    assert_eq!(key_command(KeyEvent::new(KeyCode::Left, KeyModifiers::none())), KeyCommand::ScrollLeft(4));
    assert_eq!(key_command(key('0')), KeyCommand::ScrollToLeft);
    assert_eq!(key_command(key('g')), KeyCommand::ScrollToTop);
    assert_eq!(key_command(key('G')), KeyCommand::ScrollToEnd);
    assert_eq!(key_command(key('r')), KeyCommand::Refresh);
    assert_eq!(key_command(KeyEvent::new(KeyCode::Other, KeyModifiers::none())), KeyCommand::Nothing);
}

#[test]
fn moving_through_files_stops_at_the_ends() {
    let source = ScriptedSource::new().then_files(Ok(vec![entry("a"), entry("b"), entry("c")]));
    let mut app = App::new(source);
    assert_eq!(app.selected, Some(0));
    assert_eq!(app.selected_file_path(), Some("a"));
    app.handle_key(key('k'));
    assert_eq!(app.selected, Some(0));
    app.handle_key(key('j'));
    app.handle_key(key('j'));
    app.handle_key(key('j'));
    assert_eq!(app.selected, Some(2));
    assert_eq!(app.selected_file_path(), Some("c"));
    app.handle_key(key('k'));
    assert_eq!(app.selected_file_path(), Some("b"));
    app.handle_key(key('q'));
    assert!(app.should_quit);
}

#[test]
fn refresh_pulls_selection_into_shorter_list() {
    let source = ScriptedSource::new()
        .then_files(Ok(vec![entry("a"), entry("b"), entry("c")]))
        .then_files(Ok(vec![entry("a")]))
        .then_files(Ok(Vec::new()));
    let mut app = App::new(source);
    app.handle_key(key('j'));
    app.handle_key(key('j'));
    assert_eq!(app.selected, Some(2));
    app.handle_key(key('r'));
    assert_eq!(app.selected, Some(0));
    app.handle_key(key('r'));
    assert_eq!(app.selected, None);
    assert_eq!(app.selected_file_path(), None);
    assert!(app.highlighted_diff.is_empty());
}

#[test]
fn choosing_another_file_scrolls_back_to_top_left() {
    let long: Vec<DiffLine> = (0..50).map(|i| diff_line(&format!("line {i} {}\n", "x".repeat(60)))).collect();
    let source = ScriptedSource::new()
        .then_files(Ok(vec![entry("a.txt"), entry("b.txt")]))
        .then_diff(Ok(long.clone()))
        .then_diff(Ok(long));
    let mut app = App::new(source);
    app.viewport.set_visible_size(20, 10);
    app.handle_key(key('J'));
    app.handle_key(key('l'));
    assert_eq!(app.viewport.offset(), (10, 4));
    app.handle_key(key('j'));
    assert_eq!(app.viewport.offset(), (0, 0));
    assert_eq!(app.highlighted_diff.len(), 50);
    app.handle_key(key('G'));
    assert_eq!(app.viewport.offset(), (40, 0));
}

#[test]
fn wheel_scrolls_three_lines_or_four_columns() {
    assert_eq!(wheel_command(WheelTurn::Down), KeyCommand::ScrollDown(3));
    assert_eq!(wheel_command(WheelTurn::Up), KeyCommand::ScrollUp(3));
    assert_eq!(wheel_command(WheelTurn::Right), KeyCommand::ScrollRight(4));
    assert_eq!(wheel_command(WheelTurn::Left), KeyCommand::ScrollLeft(4));
    assert_eq!(wheel_command(WheelTurn::Other), KeyCommand::Nothing);
}

#[test]
fn applying_a_diff_shows_it_or_records_the_message() {
    let source = ScriptedSource::new().then_files(Ok(vec![entry("a.rs"), entry("b.rs")]));
    let mut app = App::new(source);
    assert_eq!(app.selected_entry().map(|e| e.path.as_str()), Some("a.rs"));

    app.apply_diff(Ok(vec![diff_line("x\n"), diff_line("yy\n")]));
    assert_eq!(app.last_error, None);
    assert_eq!(app.highlighted_diff.len(), 2);

    app.apply_diff(Err(error("bad object")));
    assert_eq!(app.last_error.as_deref(), Some("reading diff: bad object"));
    assert!(app.highlighted_diff.is_empty());
}

#[test]
fn applying_a_file_list_keeps_the_selection_inside_it() {
    let source = ScriptedSource::new().then_files(Ok(vec![entry("a"), entry("b"), entry("c")]));
    let mut app = App::new(source);
    app.handle_key(key('j'));
    app.handle_key(key('j'));
    app.apply_file_list(Ok(vec![entry("x"), entry("y")]));
    assert_eq!(app.selected, Some(1));
    assert_eq!(app.selected_entry().map(|e| e.path.as_str()), Some("y"));
    app.apply_file_list(Err(error("locked")));
    assert_eq!(app.selected, None);
    assert!(app.selected_entry().is_none());
    assert_eq!(app.last_error.as_deref(), Some("listing changed files: locked"));
}

#[test]
fn scrolling_keeps_list_diff_and_error() {
    let long: Vec<DiffLine> = (0..30).map(|i| diff_line(&format!("line {i}\n"))).collect();
    let source = ScriptedSource::new()
        .then_files(Ok(vec![entry("a.txt")]))
        .then_diff(Err(error("first read failed")));
    let mut app = App::new(source);
    app.apply_diff(Ok(long));
    app.apply_file_list(Ok(vec![entry("a.txt")]));
    app.last_error = Some("kept".to_string());
    app.viewport.set_visible_size(10, 5);
    for c in ['J', 'K', 'l', 'h', '0', 'g', 'G', 'q'] {
        app.handle_key(key(c));
        assert_eq!(app.files.len(), 1);
        assert_eq!(app.highlighted_diff.len(), 30);
        assert_eq!(app.last_error.as_deref(), Some("kept"));
    }
    assert!(app.should_quit);
}
