//! The viewer's state and what each key does to it.

use vstd::prelude::*;
use crate::git::{DiffLine, DiffSource, FileEntry, SourceError, line_views};
use crate::highlight::{HighlightedLine, Highlighter, drawn_diff, highlighted_views};
use syntect::highlighting::ThemeSet;
use syntect::parsing::SyntaxSet;
use crate::text::push_str;
use crate::viewport::{AxisState, DiffViewport, widest};
use crate::highlight::{syntax_names, theme_names, diff_theme_name};

verus! {

/// Lines moved by `J` / `K` / `Ctrl+d` / `Ctrl+u`.
pub const PAGE_LINES: u16 = 10;

/// Columns moved by `h` / `l`.
pub const STEP_COLUMNS: u16 = 4;

/// A key as the viewer tells keys apart.
#[derive(Debug, Clone, Copy, PartialEq, Eq)]
pub enum KeyCode {
    Char(char),
    Esc,
    Up,
    Down,
    Left,
    Right,
    PageUp,
    PageDown,
    Other,
}

/// Whether Control was held with a key.
#[derive(Debug, Clone, Copy, PartialEq, Eq)]
pub struct KeyModifiers {
    pub control: bool,
}

impl KeyModifiers {
    pub fn none() -> (m: Self)
        ensures
            !m.control,
    {
        KeyModifiers { control: false }
    }

    pub fn control() -> (m: Self)
        ensures
            m.control,
    {
        KeyModifiers { control: true }
    }
}

/// A key press.
#[derive(Debug, Clone, Copy, PartialEq, Eq)]
pub struct KeyEvent {
    pub code: KeyCode,
    pub modifiers: KeyModifiers,
}

impl KeyEvent {
    pub fn new(code: KeyCode, modifiers: KeyModifiers) -> (k: Self)
        ensures
            k.code == code,
            k.modifiers == modifiers,
    {
        KeyEvent { code, modifiers }
    }
}

/// What a key asks the viewer to do.
#[derive(Debug, Clone, Copy, PartialEq, Eq)]
pub enum KeyCommand {
    Quit,
    NextFile,
    PrevFile,
    ScrollDown(u16),
    ScrollUp(u16),
    ScrollRight(u16),
    ScrollLeft(u16),
    ScrollToLeft,
    ScrollToTop,
    ScrollToEnd,
    Refresh,
    Nothing,
}

/// The key bindings: `q`/Esc quit; `j`/Down and `k`/Up choose the next and
/// previous file; `J`/PageDown/`Ctrl+d` and `K`/PageUp/`Ctrl+u` scroll ten
/// lines; `l`/Right and `h`/Left scroll four columns; `0` goes to the left
/// edge, `g` to the top, `G` to the end; `r` reloads.
pub open spec fn command_for(key: KeyEvent) -> KeyCommand {
    match key.code {
        KeyCode::Char(c) => {
            if c == 'q' {
                KeyCommand::Quit
            } else if c == 'j' {
                KeyCommand::NextFile
            } else if c == 'k' {
                KeyCommand::PrevFile
            } else if c == 'J' {
                KeyCommand::ScrollDown(PAGE_LINES)
            } else if c == 'K' {
                KeyCommand::ScrollUp(PAGE_LINES)
            } else if c == 'd' && key.modifiers.control {
                KeyCommand::ScrollDown(PAGE_LINES)
            } else if c == 'u' && key.modifiers.control {
                KeyCommand::ScrollUp(PAGE_LINES)
            } else if c == 'l' {
                KeyCommand::ScrollRight(STEP_COLUMNS)
            } else if c == 'h' {
                KeyCommand::ScrollLeft(STEP_COLUMNS)
            } else if c == '0' {
                KeyCommand::ScrollToLeft
            } else if c == 'g' {
                KeyCommand::ScrollToTop
            } else if c == 'G' {
                KeyCommand::ScrollToEnd
            } else if c == 'r' {
                KeyCommand::Refresh
            } else {
                KeyCommand::Nothing
            }
        },
        KeyCode::Esc => KeyCommand::Quit,
        KeyCode::Down => KeyCommand::NextFile,
        KeyCode::Up => KeyCommand::PrevFile,
        KeyCode::PageDown => KeyCommand::ScrollDown(PAGE_LINES),
        KeyCode::PageUp => KeyCommand::ScrollUp(PAGE_LINES),
        KeyCode::Right => KeyCommand::ScrollRight(STEP_COLUMNS),
        KeyCode::Left => KeyCommand::ScrollLeft(STEP_COLUMNS),
        KeyCode::Other => KeyCommand::Nothing,
    }
}

/// What a key asks the viewer to do.
pub fn key_command(key: KeyEvent) -> (c: KeyCommand)
    ensures
        c == command_for(key),
{
    match key.code {
        KeyCode::Char('q') | KeyCode::Esc => KeyCommand::Quit,
        KeyCode::Char('j') | KeyCode::Down => KeyCommand::NextFile,
        KeyCode::Char('k') | KeyCode::Up => KeyCommand::PrevFile,
        KeyCode::Char('J') | KeyCode::PageDown => KeyCommand::ScrollDown(PAGE_LINES),
        KeyCode::Char('K') | KeyCode::PageUp => KeyCommand::ScrollUp(PAGE_LINES),
        KeyCode::Char('d') if key.modifiers.control => KeyCommand::ScrollDown(PAGE_LINES),
        KeyCode::Char('u') if key.modifiers.control => KeyCommand::ScrollUp(PAGE_LINES),
        KeyCode::Char('l') | KeyCode::Right => KeyCommand::ScrollRight(STEP_COLUMNS),
        KeyCode::Char('h') | KeyCode::Left => KeyCommand::ScrollLeft(STEP_COLUMNS),
        KeyCode::Char('0') => KeyCommand::ScrollToLeft,
        KeyCode::Char('g') => KeyCommand::ScrollToTop,
        KeyCode::Char('G') => KeyCommand::ScrollToEnd,
        KeyCode::Char('r') => KeyCommand::Refresh,
        _ => KeyCommand::Nothing,
    }
}

/// The selection after the file list was read anew: none for an empty
/// list; else the old selection (the first file when there was none),
/// pulled back to the last file.
pub open spec fn clamped_selection(selected: Option<usize>, len: int) -> Option<usize> {
    if len <= 0 {
        None
    } else {
        let i = match selected { Some(i) => i as int, None => 0 };
        Some((if i < len - 1 { i } else { len - 1 }) as usize)
    }
}

/// The file below the selection, stopping at the last (the first file
/// when none is selected).
pub open spec fn next_selection(selected: Option<usize>, len: int) -> Option<usize> {
    match selected {
        Some(i) => Some((if i < len - 1 { i + 1 } else { len - 1 }) as usize),
        None => Some(0),
    }
}

/// The file above the selection, stopping at the first (the first file
/// when none is selected).
pub open spec fn prev_selection(selected: Option<usize>) -> Option<usize> {
    match selected {
        Some(i) => Some((if i > 0 { i - 1 } else { 0 }) as usize),
        None => Some(0),
    }
}

/// The line recorded for a failed git read: what was being done, then the
/// git message.
pub open spec fn error_text(what: Seq<char>, message: Seq<char>) -> Seq<char> {
    what + ": "@ + message
}

/// Joins what was being done and the git message into one line.
pub fn error_line(what: &str, message: &str) -> (s: String)
    ensures
        s@ == error_text(what@, message@),
{
    let mut s = String::from_str(what);
    push_str(&mut s, ": ");
    push_str(&mut s, message);
    s
}

/// Lines and columns moved by one notch of the mouse wheel.
pub const WHEEL_LINES: u16 = 3;
pub const WHEEL_COLUMNS: u16 = 4;

/// A turn of the mouse wheel.
#[derive(Debug, Clone, Copy, PartialEq, Eq)]
pub enum WheelTurn {
    Down,
    Up,
    Right,
    Left,
    Other,
}

/// The wheel scrolls three lines down or up, or four columns right or left.
pub open spec fn wheel_command_for(turn: WheelTurn) -> KeyCommand {
    match turn {
        WheelTurn::Down => KeyCommand::ScrollDown(WHEEL_LINES),
        WheelTurn::Up => KeyCommand::ScrollUp(WHEEL_LINES),
        WheelTurn::Right => KeyCommand::ScrollRight(WHEEL_COLUMNS),
        WheelTurn::Left => KeyCommand::ScrollLeft(WHEEL_COLUMNS),
        WheelTurn::Other => KeyCommand::Nothing,
    }
}

/// What a turn of the mouse wheel asks the viewer to do.
pub fn wheel_command(turn: WheelTurn) -> (c: KeyCommand)
    ensures
        c == wheel_command_for(turn),
{
    match turn {
        WheelTurn::Down => KeyCommand::ScrollDown(WHEEL_LINES),
        WheelTurn::Up => KeyCommand::ScrollUp(WHEEL_LINES),
        WheelTurn::Right => KeyCommand::ScrollRight(WHEEL_COLUMNS),
        WheelTurn::Left => KeyCommand::ScrollLeft(WHEEL_COLUMNS),
        WheelTurn::Other => KeyCommand::Nothing,
    }
}

/// The viewer's state: the changed files, which one is selected, its
/// highlighted diff, where that diff is scrolled to, whether to quit, and
/// why the last read from the source failed, if it did.
pub struct App<S: DiffSource> {
    pub files: Vec<FileEntry>,
    pub selected: Option<usize>,
    /// The diff on show, highlighted once when it changes, not at every frame.
    pub highlighted_diff: Vec<HighlightedLine>,
    pub viewport: DiffViewport,
    pub should_quit: bool,
    /// Without it a failed read and "no changes" would look the same.
    pub last_error: Option<String>,
    source: S,
    highlighter: Highlighter,
}

/// The abstract state of the viewer.
pub struct AppView {
    pub files: Seq<FileEntry>,
    pub selected: Option<usize>,
    pub highlighted: Seq<HighlightedLine>,
    pub viewport: (AxisState, AxisState),
    pub should_quit: bool,
    pub last_error: Option<Seq<char>>,
    /// The syntaxes and themes the diffs are highlighted with.
    pub syntaxes: SyntaxSet,
    pub themes: ThemeSet,
}

/// The syntax set holds a plain-text syntax.
pub open spec fn syntax_names_hold_plain_text(set: SyntaxSet) -> bool {
    syntax_names(set).contains("Plain Text"@)
}

/// The theme set holds the diff theme.
pub open spec fn theme_names_hold_diff_theme(set: ThemeSet) -> bool {
    theme_names(set).contains(diff_theme_name())
}

/// What a read from the source gave, by views: the value, or the message.
pub open spec fn read_view<T: View>(result: Result<T, SourceError>) -> Result<T::V, Seq<char>> {
    match result {
        Ok(v) => Ok(v@),
        Err(e) => Err(e.message@),
    }
}

pub open spec fn opt_text(s: Option<String>) -> Option<Seq<char>> {
    match s {
        Some(t) => Some(t@),
        None => None,
    }
}

impl<S: DiffSource> View for App<S> {
    type V = AppView;

    closed spec fn view(&self) -> AppView {
        AppView {
            files: self.files@,
            selected: self.selected,
            highlighted: self.highlighted_diff@,
            viewport: self.viewport@,
            should_quit: self.should_quit,
            last_error: opt_text(self.last_error),
            syntaxes: self.highlighter.syntaxes(),
            themes: self.highlighter.themes(),
        }
    }
}

/// The path of the selected file, if a file is selected.
pub open spec fn selected_path(files: Seq<FileEntry>, selected: Option<usize>) -> Option<Seq<char>> {
    match selected {
        Some(i) => if i < files.len() { Some(files[i as int].path@) } else { None },
        None => None,
    }
}

/// `after` shows the diff `d` of the selected file, starting from the state
/// `before`: the diff highlighted for the selected file's path, and the
/// viewport sized to it (lines and widest line). The files, the selection,
/// the quit flag and the highlighter stay as they were.
pub open spec fn shows_diff(before: AppView, after: AppView, d: Seq<DiffLine>) -> bool {
    &&& after.files == before.files
    &&& after.selected == before.selected
    &&& after.should_quit == before.should_quit
    &&& after.syntaxes == before.syntaxes
    &&& after.themes == before.themes
    &&& after.viewport.0 == before.viewport.0.with_content(d.len() as int)
    &&& after.viewport.1 == before.viewport.1.with_content(widest(d) as int)
    &&& highlighted_views(after.highlighted)
        == drawn_diff(before.syntaxes, before.themes, selected_path(before.files, before.selected), line_views(d))
}

/// The selected file's entry, if a file is selected.
pub open spec fn selected_file(files: Seq<FileEntry>, selected: Option<usize>) -> Option<FileEntry> {
    match selected {
        Some(i) => if i < files.len() { Some(files[i as int]) } else { None },
        None => None,
    }
}

/// `result` is an answer that `source` may give when asked for the diff of
/// `entry`.
pub open spec fn may_answer_diff<S: DiffSource>(source: S, entry: FileEntry, result: Result<Vec<DiffLine>, SourceError>) -> bool {
    call_ensures(S::file_diff, (&source, &entry), result)
}

/// `result` is an answer that `source` may give when asked for the changed
/// files.
pub open spec fn may_answer_files<S: DiffSource>(source: S, result: Result<Vec<FileEntry>, SourceError>) -> bool {
    call_ensures(S::changed_files, (&source,), result)
}

/// `after` is `before` after a read of the selected file's diff came back:
/// with its diff and no error, or with an empty diff and the error line
/// for reading the diff with the source's message.
pub open spec fn diff_read(before: AppView, after: AppView, result: Result<Seq<DiffLine>, Seq<char>>) -> bool {
    match result {
        Ok(d) => shows_diff(before, after, d) && after.last_error is None,
        Err(m) => shows_diff(before, after, Seq::empty())
            && after.last_error == Some(error_text("reading diff"@, m)),
    }
}

/// `after` is `before` after asking `source` for the selected file's diff
/// and taking what it answered; when no file is selected nothing is asked
/// and an empty diff is shown, leaving the error as it was.
pub open spec fn diff_updated<S: DiffSource>(source: S, before: AppView, after: AppView) -> bool {
    match selected_file(before.files, before.selected) {
        None => shows_diff(before, after, Seq::empty()) && after.last_error == before.last_error,
        Some(entry) => exists|result: Result<Vec<DiffLine>, SourceError>|
            #[trigger] may_answer_diff(source, entry, result) && diff_read(before, after, read_view(result)),
    }
}

/// `after` is `before` after a read of the file list came back: the list
/// and no error, or an empty list and the error line for listing with the
/// source's message; the selection is pulled into the list.
pub open spec fn list_read(before: AppView, after: AppView, result: Result<Seq<FileEntry>, Seq<char>>) -> bool {
    &&& after.should_quit == before.should_quit
    &&& after.highlighted == before.highlighted
    &&& after.viewport == before.viewport
    &&& after.syntaxes == before.syntaxes
    &&& after.themes == before.themes
    &&& match result {
        Ok(files) => after.files == files && after.last_error is None,
        Err(m) => after.files.len() == 0 && after.last_error == Some(error_text("listing changed files"@, m)),
    }
    &&& after.selected == clamped_selection(before.selected, after.files.len() as int)
}

/// `after` is `before` after asking `source` for the file list and then for
/// the selected file's diff, and taking what it answered.
pub open spec fn reloaded<S: DiffSource>(source: S, before: AppView, after: AppView) -> bool {
    exists|mid: AppView, result: Result<Vec<FileEntry>, SourceError>|
        #[trigger] may_answer_files(source, result) && list_read(before, mid, read_view(result))
            && #[trigger] diff_updated(source, mid, after)
}

/// The effect of a command on the viewer reading from `source`.
pub open spec fn command_effect<S: DiffSource>(source: S, before: AppView, after: AppView, c: KeyCommand) -> bool {
    match c {
        KeyCommand::Quit => after == AppView { should_quit: true, ..before },
        KeyCommand::ScrollDown(n) => after == AppView { viewport: (before.viewport.0.forward(n as int), before.viewport.1), ..before },
        KeyCommand::ScrollUp(n) => after == AppView { viewport: (before.viewport.0.backward(n as int), before.viewport.1), ..before },
        KeyCommand::ScrollRight(n) => after == AppView { viewport: (before.viewport.0, before.viewport.1.forward(n as int)), ..before },
        KeyCommand::ScrollLeft(n) => after == AppView { viewport: (before.viewport.0, before.viewport.1.backward(n as int)), ..before },
        KeyCommand::ScrollToLeft => after == AppView { viewport: (before.viewport.0, before.viewport.1.to_start()), ..before },
        KeyCommand::ScrollToTop => after == AppView { viewport: (before.viewport.0.to_start(), before.viewport.1), ..before },
        KeyCommand::ScrollToEnd => after == AppView { viewport: (before.viewport.0.to_end(), before.viewport.1), ..before },
        KeyCommand::NextFile => if before.files.len() == 0 { after == before } else {
            diff_updated(source, AppView {
                selected: next_selection(before.selected, before.files.len() as int),
                viewport: (before.viewport.0.to_start(), before.viewport.1.to_start()),
                ..before
            }, after)
        },
        KeyCommand::PrevFile => if before.files.len() == 0 { after == before } else {
            diff_updated(source, AppView {
                selected: prev_selection(before.selected),
                viewport: (before.viewport.0.to_start(), before.viewport.1.to_start()),
                ..before
            }, after)
        },
        KeyCommand::Refresh => exists|mid: AppView| #[trigger] reloaded(source, before, mid)
            && after == AppView { viewport: (mid.viewport.0.to_start(), mid.viewport.1.to_start()), ..mid },
        KeyCommand::Nothing => after == before,
    }
}

impl<S: DiffSource> App<S> {
    /// The diff source the viewer reads from.
    pub closed spec fn source(&self) -> S {
        self.source
    }

    /// Keeps the value of a read from the source; on failure records why
    /// (what was being done, then the source's message) and gives `None`.
    /// A success clears the error of an earlier read.
    pub fn ok_or_record_error<T>(&mut self, what: &str, result: Result<T, SourceError>) -> (r: Option<T>)
        ensures
            match result {
                Ok(v) => r == Some(v) && final(self)@ == AppView { last_error: None, ..old(self)@ },
                Err(e) => r is None && final(self)@ == AppView {
                    last_error: Some(error_text(what@, e.message@)),
                    ..old(self)@
                },
            },
            final(self).source() == old(self).source(),
    {
        match result {
            Ok(value) => {
                self.last_error = None;
                Some(value)
            },
            Err(error) => {
                let line = error_line(what, error.message.as_str());
                self.last_error = Some(line);
                None
            },
        }
    }

    /// The path of the selected file, if a file is selected.
    pub fn selected_file_path(&self) -> (p: Option<&str>)
        ensures
            match p {
                Some(s) => selected_path(self@.files, self@.selected) == Some(s@),
                None => selected_path(self@.files, self@.selected) is None,
            },
    {
        match self.selected {
            Some(i) => if i < self.files.len() { Some(self.files[i].path.as_str()) } else { None },
            None => None,
        }
    }

    /// The selected file's entry, if a file is selected.
    pub fn selected_entry(&self) -> (e: Option<&FileEntry>)
        ensures
            match e {
                Some(x) => selected_file(self@.files, self@.selected) == Some(*x),
                None => selected_file(self@.files, self@.selected) is None,
            },
    {
        match self.selected {
            Some(i) => if i < self.files.len() { Some(&self.files[i]) } else { None },
            None => None,
        }
    }

    /// Shows a diff: highlights it for the selected file and sizes the
    /// viewport to it.
    fn show_diff(&mut self, diff: Vec<DiffLine>)
        ensures
            shows_diff(old(self)@, final(self)@, diff@),
            final(self)@.last_error == old(self)@.last_error,
            final(self).source() == old(self).source(),
    {
        let highlighted = self.highlighter.highlight_diff(diff.as_slice(), self.selected_file_path());
        self.highlighted_diff = highlighted;
        self.viewport.set_content(diff.as_slice());
    }

    /// Takes what a read of the selected file's diff gave: shows the diff,
    /// or records why the read failed and shows an empty diff.
    pub fn apply_diff(&mut self, result: Result<Vec<DiffLine>, SourceError>)
        ensures
            diff_read(old(self)@, final(self)@, read_view(result)),
            final(self).source() == old(self).source(),
    {
        let diff = match self.ok_or_record_error("reading diff", result) {
            Some(d) => d,
            None => Vec::new(),
        };
        self.show_diff(diff);
    }

    /// Reads the selected file's diff and shows it; shows an empty diff when
    /// no file is selected.
    fn update_diff(&mut self)
        ensures
            diff_updated(old(self).source(), old(self)@, final(self)@),
            final(self).source() == old(self).source(),
    {
        match self.selected_entry() {
            Some(entry) => {
                let result = self.source.file_diff(entry);
                let ghost answer = result;
                assert(may_answer_diff(old(self).source(), *entry, answer));
                self.apply_diff(result);
                assert(may_answer_diff(old(self).source(), *entry, answer)
                    && diff_read(old(self)@, self@, read_view(answer)));
            },
            None => {
                let empty: Vec<DiffLine> = Vec::new();
                assert(empty@ =~= Seq::<DiffLine>::empty());
                self.show_diff(empty);
            },
        }
    }

    /// Takes what a read of the file list gave (an empty list when it
    /// failed, with the reason recorded) and pulls the selection into it.
    pub fn apply_file_list(&mut self, result: Result<Vec<FileEntry>, SourceError>)
        ensures
            list_read(old(self)@, final(self)@, read_view(result)),
            final(self).source() == old(self).source(),
    {
        self.files = match self.ok_or_record_error("listing changed files", result) {
            Some(files) => files,
            None => Vec::new(),
        };
        if self.files.len() == 0 {
            self.selected = None;
        } else {
            let last = self.files.len() - 1;
            let index = match self.selected {
                Some(i) => if i < last { i } else { last },
                None => 0,
            };
            self.selected = Some(index);
        }
    }

    /// Reads the file list anew, pulls the selection into it and shows the
    /// selected file's diff. An empty list goes through the same steps, so
    /// that the diff on show and the viewport stay in step.
    fn reload_files(&mut self)
        ensures
            reloaded(old(self).source(), old(self)@, final(self)@),
            final(self).source() == old(self).source(),
    {
        let result = self.source.changed_files();
        let ghost answer = result;
        assert(may_answer_files(old(self).source(), answer));
        self.apply_file_list(result);
        let ghost mid = self@;
        self.update_diff();
        assert(may_answer_files(old(self).source(), answer) && list_read(old(self)@, mid, read_view(answer))
            && diff_updated(old(self).source(), mid, self@));
    }

    /// A viewer over a diff source: reads the file list, selects the first
    /// file and shows its diff.
    pub fn new(source: S) -> (app: Self)
        ensures
            app.source() == source,
            reloaded(source, AppView {
                files: Seq::empty(),
                selected: None,
                highlighted: Seq::empty(),
                viewport: (AxisState { offset: 0, content: 0, visible: 0 }, AxisState { offset: 0, content: 0, visible: 0 }),
                should_quit: false,
                last_error: None,
                syntaxes: app@.syntaxes,
                themes: app@.themes,
            }, app@),
            syntax_names_hold_plain_text(app@.syntaxes),
            theme_names_hold_diff_theme(app@.themes),
    {
        let mut app = App {
            files: Vec::new(),
            selected: None,
            highlighted_diff: Vec::new(),
            viewport: DiffViewport::new(),
            should_quit: false,
            last_error: None,
            source,
            highlighter: Highlighter::new(),
        };
        let ghost start = app@;
        assert(start.files =~= Seq::<FileEntry>::empty());
        assert(start.highlighted =~= Seq::<HighlightedLine>::empty());
        app.reload_files();
        app
    }

    fn next_file(&mut self)
        ensures
            command_effect(old(self).source(), old(self)@, final(self)@, KeyCommand::NextFile),
            final(self).source() == old(self).source(),
    {
        if self.files.len() == 0 {
            return;
        }
        let last = self.files.len() - 1;
        let i = match self.selected {
            Some(i) => if i < last { i + 1 } else { last },
            None => 0,
        };
        self.selected = Some(i);
        self.viewport.reset();
        let ghost mid = self@;
        assert(mid == AppView {
            selected: next_selection(old(self)@.selected, old(self)@.files.len() as int),
            viewport: (old(self)@.viewport.0.to_start(), old(self)@.viewport.1.to_start()),
            ..old(self)@
        });
        self.update_diff();
    }

    fn prev_file(&mut self)
        ensures
            command_effect(old(self).source(), old(self)@, final(self)@, KeyCommand::PrevFile),
            final(self).source() == old(self).source(),
    {
        if self.files.len() == 0 {
            return;
        }
        let i = match self.selected {
            Some(i) => if i > 0 { i - 1 } else { 0 },
            None => 0,
        };
        self.selected = Some(i);
        self.viewport.reset();
        let ghost mid = self@;
        assert(mid == AppView {
            selected: prev_selection(old(self)@.selected),
            viewport: (old(self)@.viewport.0.to_start(), old(self)@.viewport.1.to_start()),
            ..old(self)@
        });
        self.update_diff();
    }

    /// `r`: reads the file list anew and scrolls back to the top left.
    fn refresh(&mut self)
        ensures
            command_effect(old(self).source(), old(self)@, final(self)@, KeyCommand::Refresh),
            final(self).source() == old(self).source(),
    {
        self.reload_files();
        let ghost mid = self@;
        self.viewport.reset();
        assert(reloaded(old(self).source(), old(self)@, mid));
    }

    /// Carries out a command.
    pub fn apply_command(&mut self, command: KeyCommand)
        ensures
            command_effect(old(self).source(), old(self)@, final(self)@, command),
            final(self).source() == old(self).source(),
    {
        match command {
            KeyCommand::Quit => self.should_quit = true,
            KeyCommand::NextFile => self.next_file(),
            KeyCommand::PrevFile => self.prev_file(),
            KeyCommand::ScrollDown(n) => self.viewport.scroll_down(n),
            KeyCommand::ScrollUp(n) => self.viewport.scroll_up(n),
            KeyCommand::ScrollRight(n) => self.viewport.scroll_right(n),
            KeyCommand::ScrollLeft(n) => self.viewport.scroll_left(n),
            KeyCommand::ScrollToLeft => self.viewport.scroll_to_left(),
            KeyCommand::ScrollToTop => self.viewport.scroll_to_top(),
            KeyCommand::ScrollToEnd => self.viewport.scroll_to_end(),
            KeyCommand::Refresh => self.refresh(),
            KeyCommand::Nothing => {},
        }
    }

    /// Acts on a key press.
    pub fn handle_key(&mut self, key: KeyEvent)
        ensures
            command_effect(old(self).source(), old(self)@, final(self)@, command_for(key)),
            final(self).source() == old(self).source(),
    {
        let command = key_command(key);
        self.apply_command(command);
    }
}

/// The selection always points into the file list: there is none exactly
/// when the list is empty after a reload, and moving up or down from a
/// file in the list lands on a file in the list.
pub proof fn law_selection_stays_in_list(selected: Option<usize>, len: int)
    requires
        0 <= len <= usize::MAX,
    ensures
        clamped_selection(selected, len) is None <==> len == 0,
        clamped_selection(selected, len) matches Some(i) ==> i < len,
        len > 0 ==> (next_selection(selected, len) matches Some(i) && i < len),
        len > 0 && (selected matches Some(i) && i < len) ==> (prev_selection(selected) matches Some(j) && j < len),
        len > 0 && selected is None ==> prev_selection(selected) == Some(0usize),
{
}

/// Moving down and then up comes back to the same file, unless the
/// selection was already on the last one.
pub proof fn law_down_then_up_returns(i: usize, len: int)
    requires
        0 <= i < len - 1,
        len <= usize::MAX,
    ensures
        prev_selection(next_selection(Some(i), len)) == Some(i),
{
}

/// Reloading keeps the selected position while the list is long enough,
/// and otherwise moves it to the last file.
pub proof fn law_reload_keeps_position(i: usize, len: int)
    requires
        0 < len <= usize::MAX,
    ensures
        i < len ==> clamped_selection(Some(i), len) == Some(i),
        i >= len ==> clamped_selection(Some(i), len) == Some((len - 1) as usize),
{
}

/// A key with the given code and modifiers.
pub open spec fn key_with(code: KeyCode, modifiers: KeyModifiers) -> KeyEvent {
    KeyEvent { code, modifiers }
}

/// The key bindings, by value, whatever the modifiers: `q` and Esc quit;
/// `j`/Down and `k`/Up choose the next and previous file; `J`/PageDown
/// scroll ten lines down and `K`/PageUp ten lines up, as do `Ctrl+d` and
/// `Ctrl+u` (plain `d` and `u` do nothing); `l`/Right and `h`/Left scroll
/// four columns right and left; `0` goes to the left edge, `g` to the top,
/// `G` to the end; `r` reloads; other keys do nothing.
pub proof fn law_key_bindings(m: KeyModifiers)
    ensures
        command_for(key_with(KeyCode::Char('q'), m)) == KeyCommand::Quit,
        command_for(key_with(KeyCode::Esc, m)) == KeyCommand::Quit,
        command_for(key_with(KeyCode::Char('j'), m)) == KeyCommand::NextFile,
        command_for(key_with(KeyCode::Down, m)) == KeyCommand::NextFile,
        command_for(key_with(KeyCode::Char('k'), m)) == KeyCommand::PrevFile,
        command_for(key_with(KeyCode::Up, m)) == KeyCommand::PrevFile,
        command_for(key_with(KeyCode::Char('J'), m)) == KeyCommand::ScrollDown(10),
        command_for(key_with(KeyCode::PageDown, m)) == KeyCommand::ScrollDown(10),
        command_for(key_with(KeyCode::Char('K'), m)) == KeyCommand::ScrollUp(10),
        command_for(key_with(KeyCode::PageUp, m)) == KeyCommand::ScrollUp(10),
        m.control ==> command_for(key_with(KeyCode::Char('d'), m)) == KeyCommand::ScrollDown(10),
        m.control ==> command_for(key_with(KeyCode::Char('u'), m)) == KeyCommand::ScrollUp(10),
        !m.control ==> command_for(key_with(KeyCode::Char('d'), m)) == KeyCommand::Nothing,
        !m.control ==> command_for(key_with(KeyCode::Char('u'), m)) == KeyCommand::Nothing,
        command_for(key_with(KeyCode::Char('l'), m)) == KeyCommand::ScrollRight(4),
        command_for(key_with(KeyCode::Right, m)) == KeyCommand::ScrollRight(4),
        command_for(key_with(KeyCode::Char('h'), m)) == KeyCommand::ScrollLeft(4),
        command_for(key_with(KeyCode::Left, m)) == KeyCommand::ScrollLeft(4),
        command_for(key_with(KeyCode::Char('0'), m)) == KeyCommand::ScrollToLeft,
        command_for(key_with(KeyCode::Char('g'), m)) == KeyCommand::ScrollToTop,
        command_for(key_with(KeyCode::Char('G'), m)) == KeyCommand::ScrollToEnd,
        command_for(key_with(KeyCode::Char('r'), m)) == KeyCommand::Refresh,
        command_for(key_with(KeyCode::Other, m)) == KeyCommand::Nothing,
{
}

} // verus!
