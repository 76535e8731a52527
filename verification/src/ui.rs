//! What the panels show: text made safe for the terminal, file-list rows,
//! the status bar and the diff panel.

use vstd::prelude::*;
use crate::git::{ChangeKind, FileEntry, Stage, change_label, stage_icon};
use crate::text::{push_char, push_str};

verus! {

/// Unicode's control characters (general category Cc): U+0000 to U+001F
/// and U+007F to U+009F. This is what `char::is_control` tests.
pub open spec fn is_control_char(c: char) -> bool {
    (c as u32) < 0x20 || (0x7f <= (c as u32) && (c as u32) < 0xa0)
}

pub fn is_control(c: char) -> (r: bool)
    ensures
        r == is_control_char(c),
{
    let n = c as u32;
    n < 0x20 || (0x7f <= n && n < 0xa0)
}

/// Text made safe for the terminal: every control character becomes
/// U+FFFD, everything else stays.
pub open spec fn sanitized(s: Seq<char>) -> Seq<char> {
    s.map_values(|c: char| if is_control_char(c) { '\u{FFFD}' } else { c })
}

/// Replaces every control character (escape, tab, newline, delete and
/// the rest) with U+FFFD before text from outside reaches the terminal, so
/// that a file name or a message cannot carry an escape sequence that
/// moves the cursor or changes colours.
pub fn sanitize_for_display(text: &str) -> (s: String)
    ensures
        s@ == sanitized(text@),
        s@.len() == text@.len(),
{
    broadcast use vstd::string::group_string_axioms;
    let mut out = String::new();
    for c in it: text.chars()
        invariant
            it.seq() == text@,
            out@ == sanitized(text@.take(it.index() as int)),
    {
        let ghost before = text@.take(it.index() as int);
        let shown = if is_control(c) { '\u{FFFD}' } else { c };
        push_char(&mut out, shown);
        proof {
            assert(text@.take(it.index() as int + 1) =~= before.push(c));
            assert(sanitized(before.push(c)) =~= sanitized(before).push(shown));
        }
    }
    assert(text@.take(text@.len() as int) =~= text@);
    out
}

/// The colours of the file list.
#[derive(Debug, Clone, Copy, PartialEq, Eq)]
pub enum ListColor {
    Green,
    Yellow,
    Red,
    Cyan,
    Magenta,
}

/// Staged changes are green, unstaged ones yellow.
pub open spec fn stage_color(stage: Stage) -> ListColor {
    match stage {
        Stage::Staged => ListColor::Green,
        Stage::Unstaged => ListColor::Yellow,
    }
}

/// Added and untracked files are green, deleted red, modified yellow,
/// renamed and copied cyan, type changes magenta.
pub open spec fn kind_color(kind: ChangeKind) -> ListColor {
    match kind {
        ChangeKind::Added | ChangeKind::Untracked => ListColor::Green,
        ChangeKind::Deleted => ListColor::Red,
        ChangeKind::Modified => ListColor::Yellow,
        ChangeKind::Renamed | ChangeKind::Copied => ListColor::Cyan,
        ChangeKind::Typechange => ListColor::Magenta,
    }
}

/// One row of the file list: the stage icon, the change tag and the path,
/// each with its colour.
#[derive(Debug, Clone)]
pub struct ListRow {
    pub icon: String,
    pub icon_color: ListColor,
    pub label: String,
    pub label_color: ListColor,
    pub path: String,
}

/// The row for an entry: `icon + " "` in the stage's colour, `tag + " "`
/// in the kind's colour, and the path made safe for the terminal.
pub fn file_list_row(entry: &FileEntry) -> (r: ListRow)
    ensures
        r.icon@ == stage_icon(entry.stage) + " "@,
        r.icon_color == stage_color(entry.stage),
        r.label@ == change_label(entry.kind) + " "@,
        r.label_color == kind_color(entry.kind),
        r.path@ == sanitized(entry.path@),
{
    let mut icon = String::from_str(entry.stage.icon());
    push_str(&mut icon, " ");
    let mut label = String::from_str(entry.kind.label());
    push_str(&mut label, " ");
    let icon_color = match entry.stage {
        Stage::Staged => ListColor::Green,
        Stage::Unstaged => ListColor::Yellow,
    };
    let label_color = match entry.kind {
        ChangeKind::Added | ChangeKind::Untracked => ListColor::Green,
        ChangeKind::Deleted => ListColor::Red,
        ChangeKind::Modified => ListColor::Yellow,
        ChangeKind::Renamed | ChangeKind::Copied => ListColor::Cyan,
        ChangeKind::Typechange => ListColor::Magenta,
    };
    ListRow { icon, icon_color, label, label_color, path: sanitize_for_display(entry.path.as_str()) }
}

/// The number of staged entries.
pub open spec fn staged_count(files: Seq<FileEntry>) -> nat
    decreases files.len(),
{
    if files.len() == 0 {
        0
    } else {
        staged_count(files.drop_last()) + if files.last().stage == Stage::Staged { 1nat } else { 0nat }
    }
}

/// What the status bar shows: the failure of the last git read, made safe
/// for the terminal, or how many files changed, staged and unstaged.
#[derive(Debug, Clone)]
pub enum StatusLine {
    Error(String),
    Summary { total: usize, staged: usize, unstaged: usize },
}

/// The status bar for a file list and the last read error.
pub fn status_line(files: &Vec<FileEntry>, last_error: &Option<String>) -> (r: StatusLine)
    ensures
        match last_error {
            Some(m) => r matches StatusLine::Error(t) && t@ == sanitized(m@),
            None => r matches StatusLine::Summary { total, staged, unstaged }
                && total == files@.len() && staged == staged_count(files@) && unstaged == files@.len() - staged_count(files@),
        },
{
    match last_error {
        Some(message) => StatusLine::Error(sanitize_for_display(message.as_str())),
        None => {
            let mut staged: usize = 0;
            let mut i: usize = 0;
            while i < files.len()
                invariant
                    i <= files@.len(),
                    staged == staged_count(files@.take(i as int)),
                    staged <= i,
                decreases files@.len() - i,
            {
                assert(files@.take(i as int + 1).drop_last() == files@.take(i as int));
                if files[i].stage == Stage::Staged {
                    staged = staged + 1;
                }
                i = i + 1;
            }
            assert(files@.take(files@.len() as int) == files@);
            StatusLine::Summary { total: files.len(), staged, unstaged: files.len() - staged }
        },
    }
}

/// What the diff panel shows.
#[derive(Debug, Clone)]
pub enum DiffPanel {
    /// The failure of the last git read, before anything else.
    Error(String),
    /// A grey notice in place of a diff.
    Notice(String),
    /// The highlighted diff.
    Lines,
}

pub open spec fn no_changes_notice() -> Seq<char> {
    "No changes detected"@
}

pub open spec fn select_file_notice() -> Seq<char> {
    "Select a file to view diff"@
}

/// The diff panel: the error of the last git read if there is one (so
/// that a failure never looks like "no changes"); else a notice when there
/// is no diff to show; else the diff.
pub fn diff_panel(file_count: usize, diff_lines: usize, last_error: &Option<String>) -> (r: DiffPanel)
    ensures
        match last_error {
            Some(m) => r matches DiffPanel::Error(t) && t@ == "Error: "@ + sanitized(m@),
            None => if diff_lines == 0 {
                r matches DiffPanel::Notice(t)
                    && t@ == (if file_count == 0 { no_changes_notice() } else { select_file_notice() })
            } else {
                r is Lines
            },
        },
{
    match last_error {
        Some(message) => {
            let mut t = String::from_str("Error: ");
            let safe = sanitize_for_display(message.as_str());
            push_str(&mut t, safe.as_str());
            DiffPanel::Error(t)
        },
        None => {
            if diff_lines == 0 {
                if file_count == 0 {
                    DiffPanel::Notice(String::from_str("No changes detected"))
                } else {
                    DiffPanel::Notice(String::from_str("Select a file to view diff"))
                }
            } else {
                DiffPanel::Lines
            }
        },
    }
}

} // verus!

verus! {

/// Sanitized text holds no control character, is as long as the text, and
/// leaves text without control characters as it was; sanitizing twice is
/// sanitizing once.
pub proof fn law_sanitize(text: Seq<char>)
    ensures
        sanitized(text).len() == text.len(),
        forall|i: int| 0 <= i < text.len() ==> !is_control_char(#[trigger] sanitized(text)[i]),
        (forall|i: int| 0 <= i < text.len() ==> !is_control_char(#[trigger] text[i])) ==> sanitized(text) == text,
        sanitized(sanitized(text)) == sanitized(text),
{
    assert forall|i: int| 0 <= i < text.len() implies !is_control_char(#[trigger] sanitized(text)[i]) by {
        assert(('\u{FFFD}' as u32) == 0xFFFD);
    }
    if forall|i: int| 0 <= i < text.len() ==> !is_control_char(#[trigger] text[i]) {
        assert(sanitized(text) =~= text);
    }
    assert(sanitized(sanitized(text)) =~= sanitized(text));
}

/// Exactly the Unicode control characters (category Cc: U+0000 to U+001F
/// and U+007F to U+009F) are replaced by U+FFFD; every other character,
/// such as `é` or `ß`, is shown as it is.
pub proof fn law_sanitize_replaces_only_cc(text: Seq<char>)
    ensures
        forall|i: int| 0 <= i < text.len()
            && ((text[i] as u32) < 0x20 || (0x7f <= (text[i] as u32) && (text[i] as u32) < 0xa0))
            ==> #[trigger] sanitized(text)[i] == '\u{FFFD}',
        forall|i: int| 0 <= i < text.len()
            && !((text[i] as u32) < 0x20 || (0x7f <= (text[i] as u32) && (text[i] as u32) < 0xa0))
            ==> #[trigger] sanitized(text)[i] == text[i],
{
}

/// The status bar counts as staged exactly the entries whose stage is
/// staged, whatever their change kind: the count is the size of the list
/// filtered on the staged stage, and never more than the list.
pub proof fn law_staged_count_is_staged_entries(files: Seq<FileEntry>)
    ensures
        staged_count(files) == files.filter(|f: FileEntry| f.stage == Stage::Staged).len(),
        staged_count(files) <= files.len(),
    decreases files.len(),
{
    reveal(Seq::filter);
    if files.len() > 0 {
        law_staged_count_is_staged_entries(files.drop_last());
    }
}

/// Adding an entry to the list adds one to the staged count exactly when
/// the entry is staged.
pub proof fn law_staged_count_push(files: Seq<FileEntry>, e: FileEntry)
    ensures
        e.stage == Stage::Staged ==> staged_count(files.push(e)) == staged_count(files) + 1,
        e.stage != Stage::Staged ==> staged_count(files.push(e)) == staged_count(files),
{
    assert(files.push(e).drop_last() == files);
}

} // verus!
