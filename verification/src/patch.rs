//! The lines of a file's diff: from a patch, cut at a line limit, or from
//! the text of an untracked file.

use vstd::prelude::*;
use vstd::string::*;
use crate::git::{ChangeKind, DiffLine, DiffLineKind, LineView, line_views};
use crate::text::{chars_of, push_char, push_str, string_from_chars, text_lines, lines_from, strip_cr};

verus! {

/// At most this many lines of a diff are kept.
pub const MAX_DIFF_LINES: usize = 10000;

/// One line of a patch as git hands it out: its origin tag and its text.
#[derive(Debug, Clone)]
pub struct PatchLine {
    pub origin: char,
    pub content: String,
}

/// The kind of a patch line from git's origin tag.
pub open spec fn origin_kind(origin: char) -> DiffLineKind {
    if origin == '+' {
        DiffLineKind::Addition
    } else if origin == '-' {
        DiffLineKind::Deletion
    } else if origin == 'H' {
        DiffLineKind::HunkHeader
    } else if origin == 'F' {
        DiffLineKind::FileHeader
    } else {
        DiffLineKind::Context
    }
}

pub fn line_kind_of_origin(origin: char) -> (k: DiffLineKind)
    ensures
        k == origin_kind(origin),
{
    match origin {
        '+' => DiffLineKind::Addition,
        '-' => DiffLineKind::Deletion,
        'H' => DiffLineKind::HunkHeader,
        'F' => DiffLineKind::FileHeader,
        _ => DiffLineKind::Context,
    }
}

/// The line that closes a diff cut at the line limit.
pub open spec fn truncation_notice() -> Seq<char> {
    "... truncated (>10000 lines)"@
}

pub open spec fn patch_line_view(p: PatchLine) -> LineView {
    LineView { kind: origin_kind(p.origin), content: p.content@ }
}

/// The diff lines for a patch: its first `MAX_DIFF_LINES` lines, each of
/// the kind its origin gives, and, when the patch had more lines than
/// that, a closing context line that says it was cut.
pub open spec fn patch_diff(raw: Seq<PatchLine>) -> Seq<LineView> {
    let kept = if raw.len() <= MAX_DIFF_LINES { raw } else { raw.take(MAX_DIFF_LINES as int) };
    let lines = kept.map_values(|p: PatchLine| patch_line_view(p));
    if raw.len() > MAX_DIFF_LINES {
        lines.push(LineView { kind: DiffLineKind::Context, content: truncation_notice() })
    } else {
        lines
    }
}

/// Turns the lines of a patch into diff lines, keeping at most
/// `MAX_DIFF_LINES` of them and noting a cut. (A reader that stops early
/// need only hand over one line past the limit for the cut to be noted.)
pub fn diff_lines_from_patch(raw: &Vec<PatchLine>) -> (r: Vec<DiffLine>)
    ensures
        line_views(r@) == patch_diff(raw@),
{
    let n = if raw.len() <= MAX_DIFF_LINES { raw.len() } else { MAX_DIFF_LINES };
    let ghost kept = raw@.take(n as int);
    let mut out: Vec<DiffLine> = Vec::new();
    let mut i: usize = 0;
    while i < n
        invariant
            n <= raw@.len(),
            i <= n,
            kept == raw@.take(n as int),
            line_views(out@) == kept.take(i as int).map_values(|p: PatchLine| patch_line_view(p)),
        decreases n - i,
    {
        let p = &raw[i];
        let ghost before = out@;
        let line = DiffLine { kind: line_kind_of_origin(p.origin), content: p.content.clone() };
        assert(line@ == patch_line_view(kept[i as int]));
        out.push(line);
        proof {
            assert(line_views(out@) =~= line_views(before).push(line@));
            assert(kept.take(i as int + 1) =~= kept.take(i as int).push(kept[i as int]));
        }
        i = i + 1;
    }
    assert(kept.take(n as int) == kept);
    if raw.len() <= MAX_DIFF_LINES {
        assert(kept == raw@);
    }
    if raw.len() > MAX_DIFF_LINES {
        let ghost before = out@;
        out.push(DiffLine { kind: DiffLineKind::Context, content: String::from_str("... truncated (>10000 lines)") });
        proof {
            reveal_strlit("... truncated (>10000 lines)");
            assert(line_views(out@) =~= line_views(before).push(out@.last()@));
        }
    }
    out
}

/// A diff with no line of an untracked file is shown from the file itself.
pub open spec fn wants_untracked_text(lines: Seq<DiffLine>, kind: ChangeKind) -> bool {
    lines.len() == 0 && kind == ChangeKind::Untracked
}

pub fn needs_untracked_text(lines: &Vec<DiffLine>, kind: ChangeKind) -> (r: bool)
    ensures
        r == wants_untracked_text(lines@, kind),
{
    lines.len() == 0 && kind == ChangeKind::Untracked
}

/// What could be read of an untracked file.
#[derive(Debug, Clone)]
pub enum UntrackedText {
    /// The repository has no working directory.
    NoWorkdir,
    /// The file could not be read as text.
    Unreadable,
    /// The file's text.
    Text(String),
}

pub open spec fn unreadable_notice() -> Seq<char> {
    "Binary file differs"@
}

/// The header line shown above an untracked file's text.
pub open spec fn new_file_header(path: Seq<char>) -> Seq<char> {
    "new file: "@ + path + "\n"@
}

pub open spec fn addition_line(line: Seq<char>) -> LineView {
    LineView { kind: DiffLineKind::Addition, content: line + "\n"@ }
}

/// The diff shown for an untracked file: nothing without a working
/// directory; a notice when it cannot be read as text; else a header and
/// its lines as additions, each ending in `\n`, cut after `MAX_DIFF_LINES`
/// lines with the cut notice when the file has more.
pub open spec fn untracked_diff(path: Seq<char>, text: UntrackedText) -> Seq<LineView> {
    match text {
        UntrackedText::NoWorkdir => Seq::empty(),
        UntrackedText::Unreadable => seq![LineView { kind: DiffLineKind::Context, content: unreadable_notice() }],
        UntrackedText::Text(t) => {
            let lines = text_lines(t@);
            let head = seq![LineView { kind: DiffLineKind::FileHeader, content: new_file_header(path) }];
            if lines.len() <= MAX_DIFF_LINES {
                head + lines.map_values(|l: Seq<char>| addition_line(l))
            } else {
                (head + lines.take(MAX_DIFF_LINES as int).map_values(|l: Seq<char>| addition_line(l)))
                    .push(LineView { kind: DiffLineKind::Context, content: truncation_notice() })
            }
        },
    }
}


/// The first `limit` lines of `text` (all of them when there are fewer),
/// each as an added line ending in `\n`.
fn added_lines(text: &str, limit: usize) -> (r: Vec<DiffLine>)
    ensures
        line_views(r@) == (if text_lines(text@).len() < limit { text_lines(text@) } else {
            text_lines(text@).take(limit as int)
        }).map_values(|l: Seq<char>| addition_line(l)),
{
    let cs = chars_of(text);
    let ghost all = text_lines(text@);
    let mut out: Vec<DiffLine> = Vec::new();
    let ghost mut done: Seq<Seq<char>> = Seq::empty();
    let mut cur: Vec<char> = Vec::new();
    let mut i: usize = 0;
    assert(cs@.skip(0) == cs@);
    while i < cs.len() && out.len() < limit
        invariant
            i <= cs@.len(),
            cs@ == text@,
            all == text_lines(text@),
            out@.len() == done.len(),
            done.len() <= limit,
            line_views(out@) == done.map_values(|l: Seq<char>| addition_line(l)),
            done + lines_from(cur@, cs@.skip(i as int)) == all,
        decreases cs@.len() - i,
    {
        let c = cs[i];
        assert(cs@.skip(i as int)[0] == c);
        assert(cs@.skip(i as int).drop_first() == cs@.skip(i as int + 1));
        if c == '\n' {
            let n = if cur.len() > 0 && cur[cur.len() - 1] == '\r' { cur.len() - 1 } else { cur.len() };
            let mut content = string_from_chars(&cur, n);
            assert(content@ == strip_cr(cur@));
            push_char(&mut content, '\n');
            proof { reveal_strlit("\n"); }
            let ghost before = out@;
            let line = DiffLine { kind: DiffLineKind::Addition, content };
            assert(content@ =~= strip_cr(cur@) + "\n"@);
            assert(line@ == addition_line(strip_cr(cur@)));
            out.push(line);
            proof {
                assert(line_views(out@) =~= line_views(before).push(line@));
                assert(done.push(strip_cr(cur@)).map_values(|l: Seq<char>| addition_line(l))
                    =~= done.map_values(|l: Seq<char>| addition_line(l)).push(addition_line(strip_cr(cur@))));
                assert(done.push(strip_cr(cur@)) + lines_from(Seq::empty(), cs@.skip(i as int + 1))
                    =~= done + (seq![strip_cr(cur@)] + lines_from(Seq::empty(), cs@.skip(i as int + 1))));
                done = done.push(strip_cr(cur@));
            }
            cur = Vec::new();
        } else {
            cur.push(c);
        }
        i = i + 1;
    }
    if i == cs.len() && out.len() < limit && cur.len() > 0 {
        let mut content = string_from_chars(&cur, cur.len());
        assert(cur@.take(cur@.len() as int) == cur@);
        push_char(&mut content, '\n');
        proof { reveal_strlit("\n"); }
        let ghost before = out@;
        let line = DiffLine { kind: DiffLineKind::Addition, content };
        assert(content@ =~= cur@ + "\n"@);
        assert(line@ == addition_line(cur@));
        out.push(line);
        proof {
            assert(cs@.skip(i as int).len() == 0);
            assert(line_views(out@) =~= line_views(before).push(line@));
            assert(done.push(cur@).map_values(|l: Seq<char>| addition_line(l))
                =~= done.map_values(|l: Seq<char>| addition_line(l)).push(addition_line(cur@)));
            assert(done.push(cur@) =~= done + seq![cur@]);
            done = done.push(cur@);
            assert(done == all);
        }
    } else {
        proof {
            if i == cs.len() && out.len() < limit {
                assert(cs@.skip(i as int).len() == 0);
                assert(done + Seq::<Seq<char>>::empty() =~= done);
            } else {
                assert(out.len() == limit || i < cs.len());
            }
        }
    }
    proof {
        if done.len() == limit {
            assert(all.take(limit as int) =~= done);
        } else {
            assert(done == all);
        }
    }
    out
}

/// The diff lines shown for an untracked file, from what could be read of it.
pub fn untracked_file_lines(path: &str, text: &UntrackedText) -> (r: Vec<DiffLine>)
    ensures
        line_views(r@) == untracked_diff(path@, *text),
{
    match text {
        UntrackedText::NoWorkdir => {
            let r: Vec<DiffLine> = Vec::new();
            assert(line_views(r@) =~= Seq::<LineView>::empty());
            r
        },
        UntrackedText::Unreadable => {
            let mut r: Vec<DiffLine> = Vec::new();
            r.push(DiffLine { kind: DiffLineKind::Context, content: String::from_str("Binary file differs") });
            assert(line_views(r@) =~= seq![r@[0]@]);
            r
        },
        UntrackedText::Text(t) => {
            let mut header = String::from_str("new file: ");
            push_str(&mut header, path);
            push_str(&mut header, "\n");
            let mut r: Vec<DiffLine> = Vec::new();
            r.push(DiffLine { kind: DiffLineKind::FileHeader, content: header });
            let mut rest = added_lines(t.as_str(), MAX_DIFF_LINES + 1);
            let ghost all = text_lines(t@);
            let ghost head = line_views(r@);
            let cut = rest.len() > MAX_DIFF_LINES;
            let ghost before_cut = line_views(rest@);
            assert(before_cut.len() == rest@.len());
            assert(before_cut == (if all.len() < MAX_DIFF_LINES + 1 { all } else { all.take(MAX_DIFF_LINES as int + 1) }).map_values(|l: Seq<char>| addition_line(l)));
            if cut {
                rest.truncate(MAX_DIFF_LINES);
                proof {
                    assert(all.len() > MAX_DIFF_LINES);
                    assert(line_views(rest@) =~= before_cut.take(MAX_DIFF_LINES as int));
                    assert(line_views(rest@) =~= all.take(MAX_DIFF_LINES as int).map_values(|l: Seq<char>| addition_line(l)));
                }
            } else {
                proof {
                    assert(all.len() <= MAX_DIFF_LINES);
                    if all.len() == MAX_DIFF_LINES + 1 {
                        assert(false);
                    }
                    assert(line_views(rest@) == all.map_values(|l: Seq<char>| addition_line(l)));
                }
            }
            let ghost tail = line_views(rest@);
            r.append(&mut rest);
            assert(line_views(r@) =~= head + tail);
            if cut {
                let ghost before = r@;
                r.push(DiffLine { kind: DiffLineKind::Context, content: String::from_str("... truncated (>10000 lines)") });
                proof {
                    reveal_strlit("... truncated (>10000 lines)");
                    assert(line_views(r@) =~= line_views(before).push(r@.last()@));
                }
            }
            r
        },
    }
}


/// A patch's diff keeps its first `MAX_DIFF_LINES` lines in order, each of
/// the kind its origin tag gives, and ends with the cut notice exactly when
/// the patch had more lines than that.
pub proof fn law_patch_diff_is_bounded(raw: Seq<PatchLine>)
    ensures
        raw.len() <= MAX_DIFF_LINES ==> patch_diff(raw).len() == raw.len(),
        raw.len() > MAX_DIFF_LINES ==> patch_diff(raw).len() == MAX_DIFF_LINES + 1
            && patch_diff(raw)[MAX_DIFF_LINES as int] == (LineView { kind: DiffLineKind::Context, content: truncation_notice() }),
        forall|k: int| 0 <= k < raw.len() && k < MAX_DIFF_LINES ==> #[trigger] patch_diff(raw)[k] == patch_line_view(raw[k]),
{
}


} // verus!
