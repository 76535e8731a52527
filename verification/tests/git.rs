use std::cmp::Ordering;

use git_diff_tui::file_list::{delta_to_change_kind, list_changed_files, ChangedPath, DeltaStatus};
use git_diff_tui::git::{ChangeKind, DiffLine, DiffLineKind, Stage};
use git_diff_tui::patch::{
    diff_lines_from_patch, line_kind_of_origin, needs_untracked_text, untracked_file_lines, PatchLine, UntrackedText,
    MAX_DIFF_LINES,
};

fn changed(new_path: Option<&str>, old_path: Option<&str>, status: DeltaStatus) -> ChangedPath {
    ChangedPath {
        new_path: new_path.map(|p| p.to_string()),
        old_path: old_path.map(|p| p.to_string()),
        status,
    }
}

fn shown(lines: &[DiffLine]) -> Vec<(DiffLineKind, String)> {
    lines.iter().map(|l| (l.kind, l.content.clone())).collect()
}

#[test]
fn labels_and_icons() {
    assert_eq!(ChangeKind::Added.label(), "A");
    assert_eq!(ChangeKind::Modified.label(), "M");
    assert_eq!(ChangeKind::Deleted.label(), "D");
    assert_eq!(ChangeKind::Renamed.label(), "R");
    assert_eq!(ChangeKind::Copied.label(), "C");
    assert_eq!(ChangeKind::Typechange.label(), "T");
    assert_eq!(ChangeKind::Untracked.label(), "?");
    assert_eq!(Stage::Staged.icon(), "\u{25cf}");
    assert_eq!(Stage::Unstaged.icon(), "\u{25cb}");
}

#[test]
fn staged_orders_first() {
    assert_eq!(Stage::Staged.cmp_staged_first(&Stage::Unstaged), Ordering::Less);
    assert_eq!(Stage::Unstaged.cmp_staged_first(&Stage::Staged), Ordering::Greater);
    assert_eq!(Stage::Staged.cmp_staged_first(&Stage::Staged), Ordering::Equal);
    assert_eq!(Stage::Unstaged.cmp_staged_first(&Stage::Unstaged), Ordering::Equal);
}

#[test]
fn only_changes_get_a_kind() {
    assert_eq!(delta_to_change_kind(DeltaStatus::Added), Some(ChangeKind::Added));
    assert_eq!(delta_to_change_kind(DeltaStatus::Untracked), Some(ChangeKind::Untracked));
    assert_eq!(delta_to_change_kind(DeltaStatus::Typechange), Some(ChangeKind::Typechange));
    assert_eq!(delta_to_change_kind(DeltaStatus::Unmodified), None);
    assert_eq!(delta_to_change_kind(DeltaStatus::Ignored), None);
    assert_eq!(delta_to_change_kind(DeltaStatus::Conflicted), None);
    assert_eq!(delta_to_change_kind(DeltaStatus::Unreadable), None);
}

#[test]
fn file_list_is_staged_first_then_by_path() {
    let staged = vec![
        changed(Some("src/b.rs"), None, DeltaStatus::Modified),
        changed(Some("README.md"), None, DeltaStatus::Added),
        changed(None, Some("gone.txt"), DeltaStatus::Deleted),
        changed(Some("same.txt"), None, DeltaStatus::Unmodified),
    ];
    let unstaged = vec![
        changed(Some("zeta"), None, DeltaStatus::Untracked),
        changed(Some("alpha"), None, DeltaStatus::Modified),
        changed(None, None, DeltaStatus::Modified),
    ];
    let files = list_changed_files(&staged, &unstaged);
    let got: Vec<(String, ChangeKind, Stage)> = files.iter().map(|f| (f.path.clone(), f.kind, f.stage)).collect();
    assert_eq!(
        got,
        vec![
            ("README.md".to_string(), ChangeKind::Added, Stage::Staged),
            ("gone.txt".to_string(), ChangeKind::Deleted, Stage::Staged),
            ("src/b.rs".to_string(), ChangeKind::Modified, Stage::Staged),
            ("alpha".to_string(), ChangeKind::Modified, Stage::Unstaged),
            ("unknown".to_string(), ChangeKind::Modified, Stage::Unstaged),
            ("zeta".to_string(), ChangeKind::Untracked, Stage::Unstaged),
        ]
    );
}

#[test]
fn file_list_sort_is_stable_and_by_code_point() {
    let staged = vec![
        changed(Some("b"), None, DeltaStatus::Modified),
        changed(Some("a\u{e9}"), None, DeltaStatus::Added),
        changed(Some("az"), None, DeltaStatus::Modified),
        changed(Some("b"), None, DeltaStatus::Renamed),
        changed(Some("a"), None, DeltaStatus::Copied),
    ];
    let files = list_changed_files(&staged, &Vec::new());
    let got: Vec<(String, ChangeKind)> = files.iter().map(|f| (f.path.clone(), f.kind)).collect();
    assert_eq!(
        got,
        vec![
            ("a".to_string(), ChangeKind::Copied),
            ("az".to_string(), ChangeKind::Modified),
            ("a\u{e9}".to_string(), ChangeKind::Added),
            ("b".to_string(), ChangeKind::Modified),
            ("b".to_string(), ChangeKind::Renamed),
        ]
    );
}

#[test]
fn origins_map_to_line_kinds() {
    assert_eq!(line_kind_of_origin('+'), DiffLineKind::Addition);
    assert_eq!(line_kind_of_origin('-'), DiffLineKind::Deletion);
    assert_eq!(line_kind_of_origin('H'), DiffLineKind::HunkHeader);
    assert_eq!(line_kind_of_origin('F'), DiffLineKind::FileHeader);
    assert_eq!(line_kind_of_origin(' '), DiffLineKind::Context);
    assert_eq!(line_kind_of_origin('='), DiffLineKind::Context);
}

#[test]
fn patch_lines_keep_their_text() {
    let raw = vec![
        PatchLine { origin: 'F', content: "diff --git a/x b/x\n".to_string() },
        PatchLine { origin: 'H', content: "@@ -1 +1 @@\n".to_string() },
        PatchLine { origin: '-', content: "old\n".to_string() },
        PatchLine { origin: '+', content: "new\n".to_string() },
    ];
    assert_eq!(
        shown(&diff_lines_from_patch(&raw)),
        vec![
            (DiffLineKind::FileHeader, "diff --git a/x b/x\n".to_string()),
            (DiffLineKind::HunkHeader, "@@ -1 +1 @@\n".to_string()),
            (DiffLineKind::Deletion, "old\n".to_string()),
            (DiffLineKind::Addition, "new\n".to_string()),
        ]
    );
}

#[test]
fn long_patches_are_cut_with_a_notice() {
    let raw: Vec<PatchLine> = (0..MAX_DIFF_LINES + 5)
        .map(|i| PatchLine { origin: '+', content: format!("{i}\n") })
        .collect();
    let lines = diff_lines_from_patch(&raw);
    assert_eq!(lines.len(), MAX_DIFF_LINES + 1);
    assert_eq!(lines[MAX_DIFF_LINES - 1].content, format!("{}\n", MAX_DIFF_LINES - 1));
    assert_eq!(lines[MAX_DIFF_LINES].kind, DiffLineKind::Context);
    assert_eq!(lines[MAX_DIFF_LINES].content, "... truncated (>10000 lines)");

    let exact: Vec<PatchLine> = (0..MAX_DIFF_LINES).map(|_| PatchLine { origin: ' ', content: "x\n".to_string() }).collect();
    let exact_lines = diff_lines_from_patch(&exact);
    assert_eq!(exact_lines.len(), MAX_DIFF_LINES);
    assert_eq!(exact_lines[MAX_DIFF_LINES - 1].content, "x\n");
    let short: Vec<PatchLine> = (0..MAX_DIFF_LINES - 1).map(|_| PatchLine { origin: ' ', content: "x\n".to_string() }).collect();
    assert_eq!(diff_lines_from_patch(&short).len(), MAX_DIFF_LINES - 1);
}

#[test]
fn untracked_files_are_shown_as_added() {
    assert!(needs_untracked_text(&Vec::new(), ChangeKind::Untracked));
    assert!(!needs_untracked_text(&Vec::new(), ChangeKind::Modified));
    let text = UntrackedText::Text("one\r\ntwo\n\nthree\rx".to_string());
    assert_eq!(
        shown(&untracked_file_lines("notes.txt", &text)),
        vec![
            (DiffLineKind::FileHeader, "new file: notes.txt\n".to_string()),
            (DiffLineKind::Addition, "one\n".to_string()),
            (DiffLineKind::Addition, "two\n".to_string()),
            (DiffLineKind::Addition, "\n".to_string()),
            (DiffLineKind::Addition, "three\rx\n".to_string()),
        ]
    );
    assert_eq!(
        shown(&untracked_file_lines("a", &UntrackedText::Text("solo\n".to_string()))),
        vec![
            (DiffLineKind::FileHeader, "new file: a\n".to_string()),
            (DiffLineKind::Addition, "solo\n".to_string()),
        ]
    );
    assert_eq!(
        shown(&untracked_file_lines("bin", &UntrackedText::Unreadable)),
        vec![(DiffLineKind::Context, "Binary file differs".to_string())]
    );
    assert!(untracked_file_lines("x", &UntrackedText::NoWorkdir).is_empty());
}

#[test]
fn untracked_lines_are_cut_at_the_limit() {
    let text: String = (0..MAX_DIFF_LINES + 3).map(|i| format!("{i}\n")).collect();
    let lines = untracked_file_lines("big", &UntrackedText::Text(text));
    assert_eq!(lines.len(), MAX_DIFF_LINES + 2);
    assert_eq!(lines[MAX_DIFF_LINES].content, format!("{}\n", MAX_DIFF_LINES - 1));
    assert_eq!(lines[MAX_DIFF_LINES + 1].kind, DiffLineKind::Context);
    assert_eq!(lines[MAX_DIFF_LINES + 1].content, "... truncated (>10000 lines)");

    let exact: String = (0..MAX_DIFF_LINES).map(|i| format!("{i}\n")).collect();
    let lines = untracked_file_lines("exact", &UntrackedText::Text(exact));
    assert_eq!(lines.len(), MAX_DIFF_LINES + 1);
    assert_eq!(lines[MAX_DIFF_LINES].content, format!("{}\n", MAX_DIFF_LINES - 1));
}
