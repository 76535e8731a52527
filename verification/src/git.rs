//! The values the viewer is made of: change kinds and stages, file-list
//! entries, diff lines, and the source the file list and diffs are read from.

use vstd::prelude::*;
use vstd::string::*;
use std::cmp::Ordering;

verus! {

/// How a file differs from the version it is compared with.
#[derive(Debug, Clone, Copy, PartialEq, Eq, Structural)]
pub enum ChangeKind {
    Added,
    Modified,
    Deleted,
    Renamed,
    Copied,
    Typechange,
    Untracked,
}

/// The one-letter tag shown before a path in the file list.
pub open spec fn change_label(kind: ChangeKind) -> Seq<char> {
    match kind {
        ChangeKind::Added => "A"@,
        ChangeKind::Modified => "M"@,
        ChangeKind::Deleted => "D"@,
        ChangeKind::Renamed => "R"@,
        ChangeKind::Copied => "C"@,
        ChangeKind::Typechange => "T"@,
        ChangeKind::Untracked => "?"@,
    }
}

impl ChangeKind {
    pub fn label(&self) -> (s: &'static str)
        ensures
            s@ == change_label(*self),
    {
        match self {
            ChangeKind::Added => "A",
            ChangeKind::Modified => "M",
            ChangeKind::Deleted => "D",
            ChangeKind::Renamed => "R",
            ChangeKind::Copied => "C",
            ChangeKind::Typechange => "T",
            ChangeKind::Untracked => "?",
        }
    }
}

/// Which side of the index a change sits on.
#[derive(Debug, Clone, Copy, PartialEq, Eq, Structural)]
pub enum Stage {
    Staged,
    Unstaged,
}

/// The icon shown for a stage: a filled dot for staged, a hollow one for unstaged.
pub open spec fn stage_icon(stage: Stage) -> Seq<char> {
    match stage {
        Stage::Staged => "\u{25cf}"@,
        Stage::Unstaged => "\u{25cb}"@,
    }
}

/// Staged changes come before unstaged ones.
pub open spec fn stage_rank(stage: Stage) -> int {
    match stage {
        Stage::Staged => 0,
        Stage::Unstaged => 1,
    }
}

/// The order of two stages in the file list: staged before unstaged.
pub open spec fn staged_first_ordering(a: Stage, b: Stage) -> Ordering {
    if stage_rank(a) < stage_rank(b) {
        Ordering::Less
    } else if stage_rank(a) > stage_rank(b) {
        Ordering::Greater
    } else {
        Ordering::Equal
    }
}

impl Stage {
    pub fn icon(&self) -> (s: &'static str)
        ensures
            s@ == stage_icon(*self),
    {
        match self {
            Stage::Staged => "\u{25cf}",
            Stage::Unstaged => "\u{25cb}",
        }
    }

    /// Orders staged before unstaged; two equal stages are equal.
    pub fn cmp_staged_first(&self, other: &Self) -> (o: Ordering)
        ensures
            o == staged_first_ordering(*self, *other),
    {
        match (self, other) {
            (Stage::Staged, Stage::Unstaged) => Ordering::Less,
            (Stage::Unstaged, Stage::Staged) => Ordering::Greater,
            _ => Ordering::Equal,
        }
    }
}

/// One changed file as shown in the file list.
#[derive(Debug, Clone)]
pub struct FileEntry {
    pub path: String,
    pub kind: ChangeKind,
    pub stage: Stage,
}

/// What a line of a unified diff is.
#[derive(Debug, Clone, Copy, PartialEq, Eq, Structural)]
pub enum DiffLineKind {
    Context,
    Addition,
    Deletion,
    HunkHeader,
    FileHeader,
}

/// One line of a unified diff, without its leading `+`/`-`/` ` marker.
#[derive(Debug, Clone)]
pub struct DiffLine {
    pub kind: DiffLineKind,
    pub content: String,
}

/// The columns that a line's text takes on screen: its characters, not
/// counting one line terminator `\n` at its end.
pub open spec fn line_width(s: Seq<char>) -> nat {
    if s.len() > 0 && s.last() == '\n' {
        (s.len() - 1) as nat
    } else {
        s.len()
    }
}

impl DiffLine {
    /// The number of columns the line's text takes, without its line terminator.
    pub fn display_width(&self) -> (w: usize)
        ensures
            w == line_width(self.content@),
    {
        let text = self.content.as_str();
        let n = text.unicode_len();
        if n > 0 && text.get_char(n - 1) == '\n' {
            n - 1
        } else {
            n
        }
    }
}

/// The abstract value of a diff line.
pub struct LineView {
    pub kind: DiffLineKind,
    pub content: Seq<char>,
}

impl View for DiffLine {
    type V = LineView;

    open spec fn view(&self) -> LineView {
        LineView { kind: self.kind, content: self.content@ }
    }
}

pub open spec fn line_views(s: Seq<DiffLine>) -> Seq<LineView> {
    s.map_values(|l: DiffLine| l@)
}


/// A failed read from a diff source, with the reason the source gave.
#[derive(Debug, Clone)]
pub struct SourceError {
    pub message: String,
}

/// Where the file list and the diffs come from: a git repository, or a
/// stand-in that replays prepared answers.
pub trait DiffSource {
    fn changed_files(&self) -> Result<Vec<FileEntry>, SourceError>;

    fn file_diff(&self, entry: &FileEntry) -> Result<Vec<DiffLine>, SourceError>;
}


} // verus!
