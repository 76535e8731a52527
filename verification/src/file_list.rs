//! The file list: entries built from the files of the staged and the
//! unstaged diff, sorted staged first and then by path.

use vstd::prelude::*;
use vstd::string::*;
use vstd::multiset::Multiset;
use crate::git::{ChangeKind, FileEntry, Stage, stage_rank};
use crate::text::chars_of;

verus! {

/// The status that git reports for a file in a diff.
#[derive(Debug, Clone, Copy, PartialEq, Eq, Structural)]
pub enum DeltaStatus {
    Unmodified,
    Added,
    Deleted,
    Modified,
    Renamed,
    Copied,
    Ignored,
    Untracked,
    Typechange,
    Unreadable,
    Conflicted,
}

/// The change kind shown for a git status; statuses that are not changes
/// (unmodified, ignored, unreadable, conflicted) have none.
pub open spec fn change_kind_of(status: DeltaStatus) -> Option<ChangeKind> {
    match status {
        DeltaStatus::Added => Some(ChangeKind::Added),
        DeltaStatus::Modified => Some(ChangeKind::Modified),
        DeltaStatus::Deleted => Some(ChangeKind::Deleted),
        DeltaStatus::Renamed => Some(ChangeKind::Renamed),
        DeltaStatus::Copied => Some(ChangeKind::Copied),
        DeltaStatus::Typechange => Some(ChangeKind::Typechange),
        DeltaStatus::Untracked => Some(ChangeKind::Untracked),
        _ => None,
    }
}

pub fn delta_to_change_kind(status: DeltaStatus) -> (k: Option<ChangeKind>)
    ensures
        k == change_kind_of(status),
{
    match status {
        DeltaStatus::Added => Some(ChangeKind::Added),
        DeltaStatus::Modified => Some(ChangeKind::Modified),
        DeltaStatus::Deleted => Some(ChangeKind::Deleted),
        DeltaStatus::Renamed => Some(ChangeKind::Renamed),
        DeltaStatus::Copied => Some(ChangeKind::Copied),
        DeltaStatus::Typechange => Some(ChangeKind::Typechange),
        DeltaStatus::Untracked => Some(ChangeKind::Untracked),
        _ => None,
    }
}

/// One file of a diff as git reports it: the paths on its two sides, when
/// known, and its status.
#[derive(Debug, Clone)]
pub struct ChangedPath {
    pub new_path: Option<String>,
    pub old_path: Option<String>,
    pub status: DeltaStatus,
}

/// The abstract value of a file-list entry.
pub struct EntryView {
    pub path: Seq<char>,
    pub kind: ChangeKind,
    pub stage: Stage,
}

impl View for FileEntry {
    type V = EntryView;

    open spec fn view(&self) -> EntryView {
        EntryView { path: self.path@, kind: self.kind, stage: self.stage }
    }
}

pub open spec fn entry_views(s: Seq<FileEntry>) -> Seq<EntryView> {
    s.map_values(|e: FileEntry| e@)
}

/// The path shown for a changed file: the new side's, else the old side's,
/// else `unknown`.
pub open spec fn shown_path(d: ChangedPath) -> Seq<char> {
    match d.new_path {
        Some(p) => p@,
        None => match d.old_path {
            Some(p) => p@,
            None => "unknown"@,
        },
    }
}

/// The file-list entries for a diff's files on one stage, in the diff's
/// order, leaving out the files whose status is not a change.
pub open spec fn entries_of(deltas: Seq<ChangedPath>, stage: Stage) -> Seq<EntryView>
    decreases deltas.len(),
{
    if deltas.len() == 0 {
        Seq::empty()
    } else {
        let rest = entries_of(deltas.drop_last(), stage);
        let d = deltas.last();
        match change_kind_of(d.status) {
            Some(kind) => rest.push(EntryView { path: shown_path(d), kind, stage }),
            None => rest,
        }
    }
}

/// Lexicographic order on character sequences, by code point; a prefix
/// comes first. This is the order of `str` comparison in Rust, since UTF-8
/// preserves code-point order.
pub open spec fn chars_le(a: Seq<char>, b: Seq<char>) -> bool
    decreases a.len(),
{
    if a.len() == 0 {
        true
    } else if b.len() == 0 {
        false
    } else if (a[0] as u32) != (b[0] as u32) {
        (a[0] as u32) < (b[0] as u32)
    } else {
        chars_le(a.drop_first(), b.drop_first())
    }
}

/// The file-list order: staged entries first, then by path.
pub open spec fn entry_le(a: EntryView, b: EntryView) -> bool {
    stage_rank(a.stage) < stage_rank(b.stage)
        || (stage_rank(a.stage) == stage_rank(b.stage) && chars_le(a.path, b.path))
}

/// Where `e` goes in `s` when the list is scanned from its end: after the
/// last element that is not greater than it.
pub open spec fn insert_pos(s: Seq<EntryView>, e: EntryView) -> nat
    decreases s.len(),
{
    if s.len() == 0 {
        0
    } else if entry_le(s.last(), e) {
        s.len()
    } else {
        insert_pos(s.drop_last(), e)
    }
}

/// Stable sort of `s` into the file-list order, by insertion of each
/// element in turn. Entries that compare equal keep their order.
pub open spec fn sort_entries_spec(s: Seq<EntryView>) -> Seq<EntryView>
    decreases s.len(),
{
    if s.len() == 0 {
        Seq::empty()
    } else {
        let sorted = sort_entries_spec(s.drop_last());
        sorted.insert(insert_pos(sorted, s.last()) as int, s.last())
    }
}

/// The file list for a staged diff and an unstaged diff.
pub open spec fn file_list(staged: Seq<ChangedPath>, unstaged: Seq<ChangedPath>) -> Seq<EntryView> {
    sort_entries_spec(entries_of(staged, Stage::Staged) + entries_of(unstaged, Stage::Unstaged))
}

/// Compares two character sequences in lexicographic order.
pub fn chars_le_exec(a: &Vec<char>, b: &Vec<char>) -> (r: bool)
    ensures
        r == chars_le(a@, b@),
{
    let mut i: usize = 0;
    assert(a@.skip(0) == a@);
    assert(b@.skip(0) == b@);
    while i < a.len() && i < b.len()
        invariant
            i <= a@.len(),
            i <= b@.len(),
            chars_le(a@, b@) == chars_le(a@.skip(i as int), b@.skip(i as int)),
        decreases a@.len() - i,
    {
        assert(a@.skip(i as int)[0] == a@[i as int]);
        assert(b@.skip(i as int)[0] == b@[i as int]);
        let ca = a[i] as u32;
        let cb = b[i] as u32;
        if ca != cb {
            return ca < cb;
        }
        assert(a@.skip(i as int).drop_first() == a@.skip(i as int + 1));
        assert(b@.skip(i as int).drop_first() == b@.skip(i as int + 1));
        i = i + 1;
    }
    i == a.len()
}

/// Whether `a` comes no later than `b` in the file list.
pub fn entry_le_exec(a: &FileEntry, b: &FileEntry) -> (r: bool)
    ensures
        r == entry_le(a@, b@),
{
    let ra: u8 = match a.stage { Stage::Staged => 0, Stage::Unstaged => 1 };
    let rb: u8 = match b.stage { Stage::Staged => 0, Stage::Unstaged => 1 };
    if ra != rb {
        ra < rb
    } else {
        let pa = chars_of(a.path.as_str());
        let pb = chars_of(b.path.as_str());
        chars_le_exec(&pa, &pb)
    }
}

/// Sorts entries staged first, then by path; entries that compare equal
/// keep their order.
pub fn sort_entries(entries: Vec<FileEntry>) -> (r: Vec<FileEntry>)
    ensures
        entry_views(r@) == sort_entries_spec(entry_views(entries@)),
{
    let ghost input = entry_views(entries@);
    let mut rest = entries;
    let mut out: Vec<FileEntry> = Vec::new();
    let ghost done: int = 0;
    while rest.len() > 0
        invariant
            0 <= done <= input.len(),
            entry_views(rest@) == input.skip(done),
            entry_views(out@) == sort_entries_spec(input.take(done)),
        decreases rest@.len(),
    {
        let ghost before = rest@;
        assert(entry_views(before).len() == before.len());
        assert(entry_views(before)[0] == before[0]@);
        let e = rest.remove(0);
        proof {
            assert(entry_views(rest@) =~= input.skip(done + 1)) by {
                assert forall|k: int| 0 <= k < rest@.len() implies entry_views(rest@)[k] == input.skip(done + 1)[k] by {
                    assert(rest@[k] == before[k + 1]);
                    assert(entry_views(before)[k + 1] == before[k + 1]@);
                }
            }
            assert(e@ == input[done]);
            assert(input.take(done + 1).drop_last() == input.take(done));
        }
        let ghost sorted = entry_views(out@);
        let mut p: usize = out.len();
        assert(sorted.take(p as int) == sorted);
        while p > 0 && !entry_le_exec(&out[p - 1], &e)
            invariant
                p <= out@.len(),
                sorted == entry_views(out@),
                insert_pos(sorted, e@) == insert_pos(sorted.take(p as int), e@),
            decreases p,
        {
            assert(sorted.take(p as int).drop_last() == sorted.take(p - 1));
            p = p - 1;
        }
        proof {
            if p > 0 {
                assert(sorted.take(p as int).last() == sorted[p - 1]);
            }
        }
        out.insert(p, e);
        proof {
            assert(entry_views(out@) == sorted.insert(p as int, e@));
            done = done + 1;
        }
    }
    proof {
        assert(input.take(done) == input);
    }
    out
}

/// Builds the file-list entries for one stage's diff, in the diff's order.
pub fn entries_from_deltas(deltas: &Vec<ChangedPath>, stage: Stage) -> (r: Vec<FileEntry>)
    ensures
        entry_views(r@) == entries_of(deltas@, stage),
{
    let mut out: Vec<FileEntry> = Vec::new();
    let mut i: usize = 0;
    while i < deltas.len()
        invariant
            i <= deltas@.len(),
            entry_views(out@) == entries_of(deltas@.take(i as int), stage),
        decreases deltas@.len() - i,
    {
        let d = &deltas[i];
        assert(deltas@.take(i as int + 1).drop_last() == deltas@.take(i as int));
        if let Some(kind) = delta_to_change_kind(d.status) {
            let path = match &d.new_path {
                Some(p) => p.clone(),
                None => match &d.old_path {
                    Some(p) => p.clone(),
                    None => String::from_str("unknown"),
                },
            };
            out.push(FileEntry { path, kind, stage });
            assert(entry_views(out@) == entry_views(out@.drop_last()).push(out@.last()@));
        }
        i = i + 1;
    }
    assert(deltas@.take(deltas@.len() as int) == deltas@);
    out
}

/// The file list: the staged diff's files and the unstaged diff's files,
/// staged first, then ordered by path.
pub fn list_changed_files(staged: &Vec<ChangedPath>, unstaged: &Vec<ChangedPath>) -> (r: Vec<FileEntry>)
    ensures
        entry_views(r@) == file_list(staged@, unstaged@),
{
    let mut entries = entries_from_deltas(staged, Stage::Staged);
    let mut more = entries_from_deltas(unstaged, Stage::Unstaged);
    let ghost a = entry_views(entries@);
    let ghost b = entry_views(more@);
    entries.append(&mut more);
    assert(entry_views(entries@) == a + b);
    sort_entries(entries)
}


/// The entries are in file-list order.
pub open spec fn entries_sorted(s: Seq<EntryView>) -> bool {
    forall|i: int, j: int| 0 <= i < j < s.len() ==> entry_le(#[trigger] s[i], #[trigger] s[j])
}

proof fn lemma_chars_le_total(a: Seq<char>, b: Seq<char>)
    ensures
        chars_le(a, b) || chars_le(b, a),
    decreases a.len(),
{
    if a.len() > 0 && b.len() > 0 && (a[0] as u32) == (b[0] as u32) {
        lemma_chars_le_total(a.drop_first(), b.drop_first());
    }
}

proof fn lemma_chars_le_trans(a: Seq<char>, b: Seq<char>, c: Seq<char>)
    requires
        chars_le(a, b),
        chars_le(b, c),
    ensures
        chars_le(a, c),
    decreases a.len(),
{
    if a.len() > 0 && b.len() > 0 && c.len() > 0 && (a[0] as u32) == (b[0] as u32) && (b[0] as u32) == (c[0] as u32) {
        lemma_chars_le_trans(a.drop_first(), b.drop_first(), c.drop_first());
    }
}

proof fn lemma_entry_le_total_trans()
    ensures
        forall|a: EntryView, b: EntryView| entry_le(a, b) || entry_le(b, a),
        forall|a: EntryView, b: EntryView, c: EntryView|
            #[trigger] entry_le(a, b) && #[trigger] entry_le(b, c) ==> entry_le(a, c),
{
    assert forall|a: EntryView, b: EntryView| entry_le(a, b) || entry_le(b, a) by {
        lemma_chars_le_total(a.path, b.path);
    }
    assert forall|a: EntryView, b: EntryView, c: EntryView|
        #[trigger] entry_le(a, b) && #[trigger] entry_le(b, c) implies entry_le(a, c) by {
        if stage_rank(a.stage) == stage_rank(b.stage) && stage_rank(b.stage) == stage_rank(c.stage) {
            lemma_chars_le_trans(a.path, b.path, c.path);
        }
    }
}

proof fn lemma_insert_pos(s: Seq<EntryView>, e: EntryView)
    ensures
        insert_pos(s, e) <= s.len(),
        insert_pos(s, e) > 0 ==> entry_le(s[insert_pos(s, e) - 1], e),
        forall|j: int| insert_pos(s, e) <= j < s.len() ==> !entry_le(#[trigger] s[j], e),
    decreases s.len(),
{
    if s.len() > 0 && !entry_le(s.last(), e) {
        lemma_insert_pos(s.drop_last(), e);
        assert forall|j: int| insert_pos(s, e) <= j < s.len() implies !entry_le(#[trigger] s[j], e) by {
            if j < s.len() - 1 {
                assert(s[j] == s.drop_last()[j]);
            }
        }
    }
}

proof fn lemma_sort_sorted(s: Seq<EntryView>)
    ensures
        entries_sorted(sort_entries_spec(s)),
        sort_entries_spec(s).to_multiset() == s.to_multiset(),
    decreases s.len(),
{
    broadcast use vstd::seq_lib::group_to_multiset_ensures;
    if s.len() > 0 {
        let sorted = sort_entries_spec(s.drop_last());
        let e = s.last();
        lemma_sort_sorted(s.drop_last());
        lemma_insert_pos(sorted, e);
        lemma_entry_le_total_trans();
        let p = insert_pos(sorted, e) as int;
        let t = sorted.insert(p, e);
        assert forall|i: int, j: int| 0 <= i < j < t.len() implies entry_le(#[trigger] t[i], #[trigger] t[j]) by {
            if j < p {
                assert(t[i] == sorted[i] && t[j] == sorted[j]);
            } else if j == p {
                if i < p - 1 {
                    assert(entry_le(sorted[i], sorted[p - 1]));
                }
            } else if i == p {
                assert(t[j] == sorted[j - 1]);
                assert(!entry_le(sorted[j - 1], e));
            } else if i < p {
                assert(t[j] == sorted[j - 1]);
                assert(entry_le(sorted[i], sorted[j - 1]));
            } else {
                assert(t[i] == sorted[i - 1] && t[j] == sorted[j - 1]);
                assert(entry_le(sorted[i - 1], sorted[j - 1]));
            }
        }
        assert(s == s.drop_last().push(e));
    } else {
        assert(s.to_multiset() =~= Multiset::empty());
        assert(sort_entries_spec(s).to_multiset() =~= Multiset::empty());
    }
}

/// The file list is in file-list order: every staged entry comes before
/// every unstaged one, and within a stage the paths ascend.
pub proof fn law_file_list_sorted(staged: Seq<ChangedPath>, unstaged: Seq<ChangedPath>)
    ensures
        entries_sorted(file_list(staged, unstaged)),
        forall|i: int, j: int| 0 <= i < j < file_list(staged, unstaged).len()
            ==> stage_rank(#[trigger] file_list(staged, unstaged)[i].stage) <= stage_rank(#[trigger] file_list(staged, unstaged)[j].stage),
{
    lemma_sort_sorted(entries_of(staged, Stage::Staged) + entries_of(unstaged, Stage::Unstaged));
}

/// The file list holds exactly the entries of both diffs, each once:
/// sorting neither drops nor adds nor duplicates one.
pub proof fn law_file_list_keeps_entries(staged: Seq<ChangedPath>, unstaged: Seq<ChangedPath>)
    ensures
        file_list(staged, unstaged).to_multiset()
            == (entries_of(staged, Stage::Staged) + entries_of(unstaged, Stage::Unstaged)).to_multiset(),
{
    lemma_sort_sorted(entries_of(staged, Stage::Staged) + entries_of(unstaged, Stage::Unstaged));
}


} // verus!
