//! Highlighted diff lines: markers, backgrounds and colours, with one
//! syntax parser for the old version of a file and one for the new.

use vstd::prelude::*;
use syntect::easy::HighlightLines;
use syntect::highlighting::{Theme, ThemeSet};
use syntect::parsing::SyntaxSet;
use crate::git::{DiffLine, DiffLineKind, LineView, line_views};

verus! {

#[verifier::external_type_specification]
#[verifier::external_body]
pub struct ExSyntaxSet(SyntaxSet);

#[verifier::external_type_specification]
#[verifier::external_body]
pub struct ExThemeSet(ThemeSet);

#[verifier::external_type_specification]
#[verifier::external_body]
pub struct ExTheme(Theme);

/// A terminal colour.
#[derive(Debug, Clone, Copy, PartialEq, Eq)]
pub enum TermColor {
    Reset,
    Green,
    Red,
    White,
    Rgb(u8, u8, u8),
}

/// The colours of one span on screen; `None` leaves the terminal's own.
#[derive(Debug, Clone, Copy, PartialEq, Eq)]
pub struct SpanStyle {
    pub fg: Option<TermColor>,
    pub bg: Option<TermColor>,
}

/// The colours the syntax highlighter gives a piece of text.
#[derive(Debug, Clone, Copy, PartialEq, Eq)]
pub struct SyntaxStyle {
    pub fg: (u8, u8, u8),
    pub bg: (u8, u8, u8),
}

/// A diff line ready to draw: styled pieces of text, in order.
#[derive(Debug, Clone)]
pub struct HighlightedLine {
    pub spans: Vec<(SpanStyle, String)>,
}

pub open spec fn span_views(s: Seq<(SpanStyle, String)>) -> Seq<(SpanStyle, Seq<char>)> {
    s.map_values(|p: (SpanStyle, String)| (p.0, p.1@))
}

pub open spec fn syntax_span_views(s: Seq<(SyntaxStyle, String)>) -> Seq<(SyntaxStyle, Seq<char>)> {
    s.map_values(|p: (SyntaxStyle, String)| (p.0, p.1@))
}

impl View for HighlightedLine {
    type V = Seq<(SpanStyle, Seq<char>)>;

    open spec fn view(&self) -> Seq<(SpanStyle, Seq<char>)> {
        span_views(self.spans@)
    }
}

pub open spec fn highlighted_views(s: Seq<HighlightedLine>) -> Seq<Seq<(SpanStyle, Seq<char>)>> {
    s.map_values(|l: HighlightedLine| l@)
}

/// The unified-diff marker put before a line; headers carry their own format.
pub open spec fn diff_marker(kind: DiffLineKind) -> Seq<char> {
    match kind {
        DiffLineKind::Addition => "+"@,
        DiffLineKind::Deletion => "-"@,
        DiffLineKind::Context => " "@,
        DiffLineKind::HunkHeader => ""@,
        DiffLineKind::FileHeader => ""@,
    }
}

/// The unified-diff marker for a line kind.
pub fn marker_for(kind: DiffLineKind) -> (m: &'static str)
    ensures
        m@ == diff_marker(kind),
{
    match kind {
        DiffLineKind::Addition => "+",
        DiffLineKind::Deletion => "-",
        DiffLineKind::Context => " ",
        DiffLineKind::HunkHeader => "",
        DiffLineKind::FileHeader => "",
    }
}

/// The background that marks a line's kind, if it has one.
pub open spec fn kind_background(kind: DiffLineKind) -> Option<TermColor> {
    match kind {
        DiffLineKind::Addition => Some(TermColor::Rgb(0, 60, 0)),
        DiffLineKind::Deletion => Some(TermColor::Rgb(80, 0, 0)),
        DiffLineKind::HunkHeader => Some(TermColor::Rgb(40, 40, 80)),
        _ => None,
    }
}

pub fn background_for(kind: DiffLineKind) -> (c: Option<TermColor>)
    ensures
        c == kind_background(kind),
{
    match kind {
        DiffLineKind::Addition => Some(TermColor::Rgb(0, 60, 0)),
        DiffLineKind::Deletion => Some(TermColor::Rgb(80, 0, 0)),
        DiffLineKind::HunkHeader => Some(TermColor::Rgb(40, 40, 80)),
        _ => None,
    }
}

/// The style of a line's marker: green for additions, red for deletions,
/// white otherwise, on the line's background (or the terminal's).
pub open spec fn marker_style(kind: DiffLineKind) -> SpanStyle {
    SpanStyle {
        fg: Some(match kind {
            DiffLineKind::Addition => TermColor::Green,
            DiffLineKind::Deletion => TermColor::Red,
            _ => TermColor::White,
        }),
        bg: Some(match kind_background(kind) {
            Some(c) => c,
            None => TermColor::Reset,
        }),
    }
}

/// The screen style of highlighted text: the highlighter's foreground, and
/// the line's background when it has one, else the highlighter's.
pub open spec fn text_style(style: SyntaxStyle, bg: Option<TermColor>) -> SpanStyle {
    SpanStyle {
        fg: Some(TermColor::Rgb(style.fg.0, style.fg.1, style.fg.2)),
        bg: Some(match bg {
            Some(c) => c,
            None => TermColor::Rgb(style.bg.0, style.bg.1, style.bg.2),
        }),
    }
}

/// Converts the highlighter's colours to the colours on screen, with the
/// line's background in place of the highlighter's when there is one.
pub fn syntect_to_ratatui_style(style: SyntaxStyle, bg_override: Option<TermColor>) -> (s: SpanStyle)
    ensures
        s == text_style(style, bg_override),
{
    let fg = TermColor::Rgb(style.fg.0, style.fg.1, style.fg.2);
    let bg = match bg_override {
        Some(c) => c,
        None => TermColor::Rgb(style.bg.0, style.bg.1, style.bg.2),
    };
    SpanStyle { fg: Some(fg), bg: Some(bg) }
}

/// A drawn line: the marker (when the kind has one) in its style, then the
/// highlighted pieces of the text on the line's background.
pub open spec fn compose_spans(kind: DiffLineKind, body: Seq<(SyntaxStyle, Seq<char>)>) -> Seq<(SpanStyle, Seq<char>)> {
    let marker = if diff_marker(kind).len() == 0 {
        Seq::empty()
    } else {
        seq![(marker_style(kind), diff_marker(kind))]
    };
    marker + body.map_values(|p: (SyntaxStyle, Seq<char>)| (text_style(p.0, kind_background(kind)), p.1))
}

/// Builds a drawn line from its kind and its highlighted pieces.
pub fn compose_line(kind: DiffLineKind, body: &Vec<(SyntaxStyle, String)>) -> (l: HighlightedLine)
    ensures
        l@ == compose_spans(kind, syntax_span_views(body@)),
{
    let mut spans: Vec<(SpanStyle, String)> = Vec::new();
    let marker = marker_for(kind);
    let bg = background_for(kind);
    proof {
        reveal_strlit("+");
        reveal_strlit("-");
        reveal_strlit(" ");
        reveal_strlit("");
    }
    let has_marker = match kind {
        DiffLineKind::HunkHeader | DiffLineKind::FileHeader => false,
        _ => true,
    };
    if has_marker {
        let style = SpanStyle {
            fg: Some(match kind {
                DiffLineKind::Addition => TermColor::Green,
                DiffLineKind::Deletion => TermColor::Red,
                _ => TermColor::White,
            }),
            bg: Some(match bg {
                Some(c) => c,
                None => TermColor::Reset,
            }),
        };
        spans.push((style, String::from_str(marker)));
    }
    let ghost head = span_views(spans@);
    assert(head =~= (if diff_marker(kind).len() == 0 { Seq::empty() } else { seq![(marker_style(kind), diff_marker(kind))] }));
    let mut i: usize = 0;
    while i < body.len()
        invariant
            i <= body@.len(),
            bg == kind_background(kind),
            span_views(spans@) == head + syntax_span_views(body@).take(i as int).map_values(
                |p: (SyntaxStyle, Seq<char>)| (text_style(p.0, kind_background(kind)), p.1),
            ),
        decreases body@.len() - i,
    {
        let ghost before = spans@;
        let style = syntect_to_ratatui_style(body[i].0, bg);
        let text = body[i].1.clone();
        spans.push((style, text));
        proof {
            assert(span_views(spans@) =~= span_views(before).push((style, text@)));
            assert(syntax_span_views(body@).take(i as int + 1) =~= syntax_span_views(body@).take(i as int).push(
                syntax_span_views(body@)[i as int],
            ));
        }
        i = i + 1;
    }
    assert(syntax_span_views(body@).take(body@.len() as int) =~= syntax_span_views(body@));
    HighlightedLine { spans }
}

} // verus!

verus! {

/// Whether the old version's parser reads lines of this kind.
pub open spec fn feeds_old_side(kind: DiffLineKind) -> bool {
    kind == DiffLineKind::Deletion || kind == DiffLineKind::Context
}

/// Whether the new version's parser reads lines of this kind.
pub open spec fn feeds_new_side(kind: DiffLineKind) -> bool {
    kind == DiffLineKind::Addition || kind == DiffLineKind::Context
}

pub open spec fn feeds_side(kind: DiffLineKind, old: bool) -> bool {
    if old { feeds_old_side(kind) } else { feeds_new_side(kind) }
}

/// The texts that one side's parser reads, in order: deletions and context
/// for the old version, additions and context for the new one. Headers are
/// read by neither.
pub open spec fn side_texts(lines: Seq<LineView>, old: bool) -> Seq<Seq<char>>
    decreases lines.len(),
{
    if lines.len() == 0 {
        Seq::empty()
    } else {
        let rest = side_texts(lines.drop_last(), old);
        if feeds_side(lines.last().kind, old) { rest.push(lines.last().content) } else { rest }
    }
}

/// Where line `i` stands among the lines that its side's parser reads.
pub open spec fn side_position(lines: Seq<LineView>, i: int, old: bool) -> int {
    side_texts(lines.take(i), old).len() as int
}

pub type SpanList = Seq<(SyntaxStyle, Seq<char>)>;

pub open spec fn result_views(r: Seq<Option<Vec<(SyntaxStyle, String)>>>) -> Seq<Option<SpanList>> {
    r.map_values(|o: Option<Vec<(SyntaxStyle, String)>>| match o {
        Some(v) => Some(syntax_span_views(v@)),
        None => None,
    })
}

/// What a highlighter result gives to draw: its pieces, or, when
/// highlighting failed, the line's whole text as one piece in the theme's
/// default colours, so that no text is lost.
pub open spec fn pieces_or_whole(r: Option<SpanList>, plain: SyntaxStyle, content: Seq<char>) -> SpanList {
    match r {
        Some(s) => s,
        None => seq![(plain, content)],
    }
}

/// The highlighted pieces of line `i`: headers are drawn whole in the
/// header style; deletions take the old version's result for them, context
/// and additions the new version's.
pub open spec fn line_body(
    lines: Seq<LineView>,
    i: int,
    old_res: Seq<Option<SpanList>>,
    new_res: Seq<Option<SpanList>>,
    header: SyntaxStyle,
) -> SpanList {
    let l = lines[i];
    match l.kind {
        DiffLineKind::HunkHeader => seq![(header, l.content)],
        DiffLineKind::FileHeader => seq![(header, l.content)],
        DiffLineKind::Deletion => pieces_or_whole(old_res[side_position(lines, i, true)], header, l.content),
        _ => pieces_or_whole(new_res[side_position(lines, i, false)], header, l.content),
    }
}

/// The drawn diff, from the lines and each side's highlighter results.
pub open spec fn merged(
    lines: Seq<LineView>,
    old_res: Seq<Option<SpanList>>,
    new_res: Seq<Option<SpanList>>,
    header: SyntaxStyle,
) -> Seq<Seq<(SpanStyle, Seq<char>)>> {
    Seq::new(lines.len(), |i: int| compose_spans(lines[i].kind, line_body(lines, i, old_res, new_res, header)))
}

proof fn lemma_side_texts_step(lines: Seq<LineView>, i: int, old: bool)
    requires
        0 <= i < lines.len(),
    ensures
        side_texts(lines.take(i + 1), old) == (if feeds_side(lines[i].kind, old) {
            side_texts(lines.take(i), old).push(lines[i].content)
        } else {
            side_texts(lines.take(i), old)
        }),
{
    assert(lines.take(i + 1).drop_last() == lines.take(i));
}

/// Puts the drawn diff together from the lines and each side's results.
pub fn merge_sides(
    lines: &[DiffLine],
    old_res: &Vec<Option<Vec<(SyntaxStyle, String)>>>,
    new_res: &Vec<Option<Vec<(SyntaxStyle, String)>>>,
    header: SyntaxStyle,
) -> (r: Vec<HighlightedLine>)
    requires
        old_res@.len() == side_texts(line_views(lines@), true).len(),
        new_res@.len() == side_texts(line_views(lines@), false).len(),
    ensures
        highlighted_views(r@) == merged(line_views(lines@), result_views(old_res@), result_views(new_res@), header),
{
    let ghost lv = line_views(lines@);
    let mut out: Vec<HighlightedLine> = Vec::new();
    let mut oi: usize = 0;
    let mut ni: usize = 0;
    let mut i: usize = 0;
    let old_len = old_res.len();
    let new_len = new_res.len();
    assert(lv.take(0) =~= Seq::<LineView>::empty());
    while i < lines.len()
        invariant
            old_len == old_res@.len(),
            new_len == new_res@.len(),
            i <= lines@.len(),
            lv == line_views(lines@),
            oi == side_position(lv, i as int, true),
            ni == side_position(lv, i as int, false),
            old_res@.len() == side_texts(lv, true).len(),
            new_res@.len() == side_texts(lv, false).len(),
            out@.len() == i,
            forall|k: int| 0 <= k < i ==> #[trigger] highlighted_views(out@)[k]
                == merged(lv, result_views(old_res@), result_views(new_res@), header)[k],
        decreases lines@.len() - i,
    {
        let line = &lines[i];
        proof {
            lemma_side_texts_step(lv, i as int, true);
            lemma_side_texts_step(lv, i as int, false);
            lemma_side_texts_prefix(lv, i as int + 1, true);
            lemma_side_texts_prefix(lv, i as int + 1, false);
            assert(lv[i as int] == line@);
        }
        let drawn = match line.kind {
            DiffLineKind::HunkHeader | DiffLineKind::FileHeader => {
                let mut body: Vec<(SyntaxStyle, String)> = Vec::new();
                body.push((header, line.content.clone()));
                assert(syntax_span_views(body@) =~= seq![(header, line.content@)]);
                compose_line(line.kind, &body)
            },
            DiffLineKind::Deletion => {
                assert(feeds_side(lv[i as int].kind, true));
                assert(side_texts(lv.take(i as int + 1), true).len() == oi + 1);
                let d = match &old_res[oi] {
                    Some(v) => compose_line(line.kind, v),
                    None => {
                        let mut whole: Vec<(SyntaxStyle, String)> = Vec::new();
                        whole.push((header, line.content.clone()));
                        assert(syntax_span_views(whole@) =~= seq![(header, line.content@)]);
                        compose_line(line.kind, &whole)
                    },
                };
                oi = oi + 1;
                d
            },
            _ => {
                assert(feeds_side(lv[i as int].kind, false));
                assert(side_texts(lv.take(i as int + 1), false).len() == ni + 1);
                assert(line.kind == DiffLineKind::Context ==> side_texts(lv.take(i as int + 1), true).len() == oi + 1);
                let d = match &new_res[ni] {
                    Some(v) => compose_line(line.kind, v),
                    None => {
                        let mut whole: Vec<(SyntaxStyle, String)> = Vec::new();
                        whole.push((header, line.content.clone()));
                        assert(syntax_span_views(whole@) =~= seq![(header, line.content@)]);
                        compose_line(line.kind, &whole)
                    },
                };
                if line.kind == DiffLineKind::Context {
                    oi = oi + 1;
                }
                ni = ni + 1;
                d
            },
        };
        let ghost before = out@;
        out.push(drawn);
        proof {
            assert(drawn@ == merged(lv, result_views(old_res@), result_views(new_res@), header)[i as int]);
            assert forall|k: int| 0 <= k < i + 1 implies #[trigger] highlighted_views(out@)[k]
                == merged(lv, result_views(old_res@), result_views(new_res@), header)[k] by {
                assert(highlighted_views(out@)[k] == out@[k]@);
                if k < i {
                    assert(out@[k] == before[k]);
                    assert(highlighted_views(before)[k] == before[k]@);
                }
            }
        }
        i = i + 1;
    }
    assert(highlighted_views(out@) =~= merged(lv, result_views(old_res@), result_views(new_res@), header));
    out
}

} // verus!

verus! {

/// The names of the themes in a theme set (the keys of its `themes` map).
pub uninterp spec fn theme_names(set: ThemeSet) -> Set<Seq<char>>;

/// The theme that a theme set holds under a name.
pub uninterp spec fn theme_in(set: ThemeSet, name: Seq<char>) -> Theme;

/// The names of the syntaxes in a syntax set.
pub uninterp spec fn syntax_names(set: SyntaxSet) -> Set<Seq<char>>;

/// Whether a syntax set holds a syntax for a file extension
/// (`SyntaxSet::find_syntax_by_extension` finds one).
pub uninterp spec fn knows_extension(set: SyntaxSet, extension: Seq<char>) -> bool;

/// A theme's default text and background colours.
pub uninterp spec fn theme_colors(theme: Theme) -> (Option<(u8, u8, u8)>, Option<(u8, u8, u8)>);

/// What syntect gives for `line` when one fresh line highlighter, for the
/// syntax that `extension` selects in `set` (plain text for `None`) and for
/// `theme`, has read `read_before` first: the coloured pieces of the line,
/// or `None` when syntect reports an error.
pub uninterp spec fn syntect_pieces(
    set: SyntaxSet,
    extension: Option<Seq<char>>,
    theme: Theme,
    read_before: Seq<Seq<char>>,
    line: Seq<char>,
) -> Option<SpanList>;

/// The extension of a file path as `std::path::Path::extension` gives it.
pub uninterp spec fn path_extension(path: Seq<char>) -> Option<Seq<char>>;

/// The part of a path after its last `/`.
pub open spec fn last_segment(path: Seq<char>) -> Seq<char>
    decreases path.len(),
{
    if path.len() == 0 {
        path
    } else if path.last() == '/' {
        Seq::empty()
    } else {
        last_segment(path.drop_last()).push(path.last())
    }
}

/// A path whose file name is simply its last part: that part is neither
/// empty nor `.` nor `..` and holds no `:`, and the path holds no `\`
/// (which some platforms read as a separator or a prefix).
pub open spec fn plain_path(path: Seq<char>) -> bool {
    let name = last_segment(path);
    &&& name.len() > 0
    &&& name != seq!['.']
    &&& name != seq!['.', '.']
    &&& !name.contains(':')
    &&& !path.contains('\\')
}

/// The extension of a file name: what follows its last `.`, when that `.`
/// is not the name's first character.
pub open spec fn name_extension(name: Seq<char>) -> Option<Seq<char>>
    decreases name.len(),
{
    if name.len() <= 1 {
        None
    } else if name.last() == '.' {
        Some(Seq::empty())
    } else {
        match name_extension(name.drop_last()) {
            Some(e) => Some(e.push(name.last())),
            None => None,
        }
    }
}

pub open spec fn string_views(s: Seq<String>) -> Seq<Seq<char>> {
    s.map_values(|t: String| t@)
}

pub open spec fn opt_str_view(s: Option<&str>) -> Option<Seq<char>> {
    match s {
        Some(t) => Some(t@),
        None => None,
    }
}

pub open spec fn opt_string_view(s: Option<String>) -> Option<Seq<char>> {
    match s {
        Some(t) => Some(t@),
        None => None,
    }
}

/// The name of the theme used to draw diffs.
pub open spec fn diff_theme_name() -> Seq<char> {
    "base16-ocean.dark"@
}

/// Loads syntect's bundled syntax definitions, in the form that reads lines
/// ending in `\n` (`SyntaxSet::load_defaults_newlines`). The bundled set
/// holds a syntax named `Plain Text`, which `find_syntax_plain_text` looks
/// up by that name, and one for the extension `rs`, which syntect's own
/// examples find on this set and unwrap.
#[verifier::external_body]
fn load_syntax_set() -> (r: SyntaxSet)
    ensures
        syntax_names(r).contains("Plain Text"@),
        knows_extension(r, "rs"@),
{
    SyntaxSet::load_defaults_newlines()
}

/// Loads syntect's bundled themes (`ThemeSet::load_defaults`), whose map
/// holds `base16-ocean.dark` among others, as syntect documents.
#[verifier::external_body]
fn load_theme_set() -> (r: ThemeSet)
    ensures
        theme_names(r).contains("base16-ocean.dark"@),
{
    ThemeSet::load_defaults()
}

/// Looks a theme up by name in the set's `themes` map (`BTreeMap::get`):
/// found exactly when the set holds the name, and then the theme held under it.
#[verifier::external_body]
fn theme_named<'a>(set: &'a ThemeSet, name: &str) -> (r: Option<&'a Theme>)
    ensures
        r is Some <==> theme_names(*set).contains(name@),
        r matches Some(t) ==> *t == theme_in(*set, name@),
{
    set.themes.get(name)
}

/// Whether `SyntaxSet::find_syntax_by_extension` finds a syntax for an extension.
#[verifier::external_body]
fn has_syntax_for(set: &SyntaxSet, extension: &str) -> (r: bool)
    ensures
        r == knows_extension(*set, extension@),
{
    set.find_syntax_by_extension(extension).is_some()
}

/// The theme's default text and background colours (`theme.settings`'s
/// `foreground` and `background`), as red, green and blue.
#[verifier::external_body]
fn theme_default_colors(theme: &Theme) -> (r: (Option<(u8, u8, u8)>, Option<(u8, u8, u8)>))
    ensures
        r == theme_colors(*theme),
{
    let fg = theme.settings.foreground.map(|c| (c.r, c.g, c.b));
    let bg = theme.settings.background.map(|c| (c.r, c.g, c.b));
    (fg, bg)
}

/// Highlights `lines` in order with one fresh `HighlightLines` for the
/// syntax that `extension` selects in `set` (`find_syntax_by_extension`,
/// or `find_syntax_plain_text` for `None`) and for `theme`, parsing with
/// that same set. The result for each line is named by `syntect_pieces`
/// over the lines read before it; syntect documents that the pieces of a
/// line join up to the whole line.
#[verifier::external_body]
fn highlight_lines(set: &SyntaxSet, extension: Option<&str>, theme: &Theme, lines: &Vec<String>) -> (r: Vec<Option<Vec<(SyntaxStyle, String)>>>)
    requires
        syntax_names(*set).contains("Plain Text"@),
        extension matches Some(e) ==> knows_extension(*set, e@),
    ensures
        r@.len() == lines@.len(),
        forall|k: int| 0 <= k < lines@.len() ==> #[trigger] result_views(r@)[k]
            == syntect_pieces(*set, opt_str_view(extension), *theme, string_views(lines@).take(k), lines@[k]@),
        forall|k: int| 0 <= k < lines@.len() ==> (#[trigger] result_views(r@)[k] matches Some(p) ==> pieces_text(p) == lines@[k]@),
{
    let syntax = match extension {
        Some(e) => set.find_syntax_by_extension(e).unwrap(),
        None => set.find_syntax_plain_text(),
    };
    let mut parser = HighlightLines::new(syntax, theme);
    lines.iter().map(|line| parser.highlight_line(line, set).ok().map(|pieces| pieces.into_iter().map(|(style, text)| (SyntaxStyle {
        fg: (style.foreground.r, style.foreground.g, style.foreground.b),
        bg: (style.background.r, style.background.g, style.background.b),
    }, text.to_string())).collect())).collect()
}

/// The extension of a file path (`Path::extension`, as text). The result
/// is named by `path_extension`; for a plain path it is, as std documents,
/// the part of the file name after its last `.`, and none when the name has
/// no `.` or only a leading one. Left unsaid: paths ending in `/`, `.` or
/// `..`, paths holding a `\`, and those with a `:` in the last part, whose
/// reading depends on the platform's path rules.
#[verifier::external_body]
fn file_extension(path: &str) -> (r: Option<String>)
    ensures
        opt_string_view(r) == path_extension(path@),
        plain_path(path@) ==> opt_string_view(r) == name_extension(last_segment(path@)),
{
    std::path::Path::new(path).extension().and_then(|e| e.to_str()).map(|e| e.to_string())
}

/// The texts of the lines that one side reads, in order.
fn side_lines(lines: &[DiffLine], old: bool) -> (r: Vec<String>)
    ensures
        string_views(r@) == side_texts(line_views(lines@), old),
{
    let ghost lv = line_views(lines@);
    let mut out: Vec<String> = Vec::new();
    let mut i: usize = 0;
    assert(lv.take(0) =~= Seq::<LineView>::empty());
    while i < lines.len()
        invariant
            i <= lines@.len(),
            lv == line_views(lines@),
            string_views(out@) == side_texts(lv.take(i as int), old),
        decreases lines@.len() - i,
    {
        let line = &lines[i];
        proof {
            lemma_side_texts_step(lv, i as int, old);
            assert(lv[i as int] == line@);
        }
        let read = match line.kind {
            DiffLineKind::Context => true,
            DiffLineKind::Deletion => old,
            DiffLineKind::Addition => !old,
            _ => false,
        };
        if read {
            let ghost before = out@;
            out.push(line.content.clone());
            assert(string_views(out@) =~= string_views(before).push(line.content@));
        }
        i = i + 1;
    }
    assert(lv.take(lines@.len() as int) == lv);
    out
}

/// Text colour used when the theme gives none.
pub const DEFAULT_FOREGROUND: (u8, u8, u8) = (0xc0, 0xc5, 0xce);

/// Background colour used when the theme gives none.
pub const DEFAULT_BACKGROUND: (u8, u8, u8) = (0x2b, 0x30, 0x3b);

/// The colours of headers: the theme's defaults, else the fallbacks.
pub open spec fn header_style_of(theme: Theme) -> SyntaxStyle {
    SyntaxStyle {
        fg: match theme_colors(theme).0 { Some(c) => c, None => DEFAULT_FOREGROUND },
        bg: match theme_colors(theme).1 { Some(c) => c, None => DEFAULT_BACKGROUND },
    }
}

/// The extension whose syntax highlights a file: the path's extension when
/// the set knows it; else none, which means plain text.
pub open spec fn syntax_choice(set: SyntaxSet, path: Option<Seq<char>>) -> Option<Seq<char>> {
    match path {
        Some(p) => match path_extension(p) {
            Some(e) => if knows_extension(set, e) { Some(e) } else { None },
            None => None,
        },
        None => None,
    }
}

/// One side's highlighter results: each text as syntect gives it after the
/// texts before it on the same side.
pub open spec fn side_results(set: SyntaxSet, extension: Option<Seq<char>>, theme: Theme, texts: Seq<Seq<char>>) -> Seq<Option<SpanList>> {
    Seq::new(texts.len(), |k: int| syntect_pieces(set, extension, theme, texts.take(k), texts[k]))
}

/// The drawn diff for `lines` of the file at `path`, with the syntaxes of
/// `set` and the diff theme of `themes`: deletions highlighted by a parser
/// that reads the old version's lines (deletions and context), additions
/// and context by one that reads the new version's (additions and
/// context), headers whole in the theme's default colours (as is a line
/// whose parser failed).
pub open spec fn drawn_diff(set: SyntaxSet, themes: ThemeSet, path: Option<Seq<char>>, lines: Seq<LineView>) -> Seq<Seq<(SpanStyle, Seq<char>)>> {
    let theme = theme_in(themes, diff_theme_name());
    let choice = syntax_choice(set, path);
    merged(
        lines,
        side_results(set, choice, theme, side_texts(lines, true)),
        side_results(set, choice, theme, side_texts(lines, false)),
        header_style_of(theme),
    )
}

/// The highlighted pieces that line `i` is drawn from: a header whole in
/// the theme's default colours; any other line as its side's parser gives
/// it, or whole in the default colours when that parser failed.
pub open spec fn drawn_pieces(set: SyntaxSet, themes: ThemeSet, path: Option<Seq<char>>, lines: Seq<LineView>, i: int) -> SpanList {
    let theme = theme_in(themes, diff_theme_name());
    let plain = header_style_of(theme);
    let choice = syntax_choice(set, path);
    match lines[i].kind {
        DiffLineKind::HunkHeader => seq![(plain, lines[i].content)],
        DiffLineKind::FileHeader => seq![(plain, lines[i].content)],
        DiffLineKind::Deletion => pieces_or_whole(
            side_results(set, choice, theme, side_texts(lines, true))[side_position(lines, i, true)], plain, lines[i].content),
        _ => pieces_or_whole(
            side_results(set, choice, theme, side_texts(lines, false))[side_position(lines, i, false)], plain, lines[i].content),
    }
}

/// A single piece holds its own text.
proof fn lemma_whole_piece_text(style: SyntaxStyle, content: Seq<char>)
    ensures
        pieces_text(seq![(style, content)]) == content,
{
    let body = seq![(style, content)];
    assert(body.drop_last() =~= Seq::<(SyntaxStyle, Seq<char>)>::empty());
    assert(pieces_text(body.drop_last()) == Seq::<char>::empty());
    assert(Seq::<char>::empty() + content =~= content);
}

/// Syntax highlighting for diffs, with syntect's bundled syntaxes and themes.
pub struct Highlighter {
    syntax_set: SyntaxSet,
    theme_set: ThemeSet,
}

impl Highlighter {
    /// The syntax set holds plain text and the theme set the diff theme.
    #[verifier::type_invariant]
    spec fn inv(self) -> bool {
        &&& syntax_names(self.syntax_set).contains("Plain Text"@)
        &&& theme_names(self.theme_set).contains(diff_theme_name())
    }

    pub closed spec fn syntaxes(&self) -> SyntaxSet {
        self.syntax_set
    }

    pub closed spec fn themes(&self) -> ThemeSet {
        self.theme_set
    }

    pub fn new() -> (h: Self)
        ensures
            syntax_names(h.syntaxes()).contains("Plain Text"@),
            knows_extension(h.syntaxes(), "rs"@),
            theme_names(h.themes()).contains(diff_theme_name()),
    {
        Highlighter { syntax_set: load_syntax_set(), theme_set: load_theme_set() }
    }

    /// The syntax set in use.
    pub fn syntax_set(&self) -> (s: &SyntaxSet)
        ensures
            *s == self.syntaxes(),
    {
        &self.syntax_set
    }

    /// The theme set in use.
    pub fn theme_set(&self) -> (s: &ThemeSet)
        ensures
            *s == self.themes(),
    {
        &self.theme_set
    }

    /// The extension whose syntax highlights a file: its own when the
    /// syntax set knows it, else none (plain text).
    fn syntax_for(&self, file_path: Option<&str>) -> (e: Option<String>)
        ensures
            opt_string_view(e) == syntax_choice(self.syntaxes(), opt_str_view(file_path)),
            e matches Some(x) ==> knows_extension(self.syntaxes(), x@),
    {
        let extension = match file_path {
            Some(p) => file_extension(p),
            None => None,
        };
        match extension {
            Some(e) => if has_syntax_for(&self.syntax_set, e.as_str()) { Some(e) } else { None },
            None => None,
        }
    }

    /// Draws a diff with syntax highlighting.
    ///
    /// The old and the new version of the file each get a parser of their
    /// own, because parse state (an open string or comment) runs on from
    /// line to line: deletions are read by the old version's parser,
    /// additions by the new one's, context lines by both. Headers are no
    /// source code: they are drawn whole in the theme's default colours and
    /// read by neither parser. Each line starts with its unified-diff
    /// marker, and additions, deletions and hunk headers get a background
    /// of their own. A file whose extension has no syntax is plain text.
    /// A line that syntect fails to highlight is drawn whole in the theme's
    /// default colours, so no text is lost.
    pub fn highlight_diff(&self, lines: &[DiffLine], file_path: Option<&str>) -> (r: Vec<HighlightedLine>)
        ensures
            highlighted_views(r@) == drawn_diff(self.syntaxes(), self.themes(), opt_str_view(file_path), line_views(lines@)),
            r@.len() == lines@.len(),
            forall|i: int| 0 <= i < lines@.len()
                ==> drawn_text(#[trigger] highlighted_views(r@)[i]) == diff_marker(lines@[i].kind) + lines@[i].content@,
    {
        proof { use_type_invariant(self); }
        let ghost lv = line_views(lines@);
        let choice = self.syntax_for(file_path);
        let theme = match theme_named(&self.theme_set, "base16-ocean.dark") {
            Some(t) => t,
            None => {
                proof { assert(false); }
                return Vec::new();
            },
        };
        let (fg, bg) = theme_default_colors(theme);
        let header = SyntaxStyle {
            fg: match fg { Some(c) => c, None => DEFAULT_FOREGROUND },
            bg: match bg { Some(c) => c, None => DEFAULT_BACKGROUND },
        };
        let old_texts = side_lines(lines, true);
        let new_texts = side_lines(lines, false);
        let ext = match &choice { Some(e) => Some(e.as_str()), None => None };
        let old_res = highlight_lines(&self.syntax_set, ext, theme, &old_texts);
        let new_res = highlight_lines(&self.syntax_set, ext, theme, &new_texts);
        let ghost theme_v = theme_in(self.theme_set, diff_theme_name());
        let ghost ch = syntax_choice(self.syntax_set, opt_str_view(file_path));
        proof {
            assert(header == header_style_of(theme_v));
            assert(opt_str_view(ext) == ch);
            assert(result_views(old_res@) =~= side_results(self.syntax_set, ch, theme_v, side_texts(lv, true)));
            assert(result_views(new_res@) =~= side_results(self.syntax_set, ch, theme_v, side_texts(lv, false)));
        }
        let r = merge_sides(lines, &old_res, &new_res, header);
        proof {
            assert(highlighted_views(r@).len() == r@.len());
            assert forall|i: int| 0 <= i < lines@.len()
                implies drawn_text(#[trigger] highlighted_views(r@)[i]) == diff_marker(lines@[i].kind) + lines@[i].content@ by {
                assert(lv[i] == lines@[i]@);
                lemma_side_texts_position(lv, i, true);
                lemma_side_texts_position(lv, i, false);
                let body = line_body(lv, i, result_views(old_res@), result_views(new_res@), header);
                law_drawn_line_keeps_text(lv[i].kind, body);
                lemma_whole_piece_text(header, lv[i].content);
                if lv[i].kind == DiffLineKind::Deletion {
                    let k = side_position(lv, i, true);
                    assert(old_texts@[k]@ == side_texts(lv, true)[k]);
                } else if lv[i].kind != DiffLineKind::HunkHeader && lv[i].kind != DiffLineKind::FileHeader {
                    let k = side_position(lv, i, false);
                    assert(new_texts@[k]@ == side_texts(lv, false)[k]);
                }
                assert(pieces_text(body) == lv[i].content);
            }
        }
        r
    }
}

/// The position of a line among its side's lines lies within that side,
/// and the side's text there is the line's own.
proof fn lemma_side_texts_position(lines: Seq<LineView>, i: int, old: bool)
    requires
        0 <= i < lines.len(),
    ensures
        feeds_side(lines[i].kind, old) ==> side_position(lines, i, old) < side_texts(lines, old).len()
            && side_texts(lines, old)[side_position(lines, i, old)] == lines[i].content
            && side_texts(lines, old).take(side_position(lines, i, old)) == side_texts(lines.take(i), old),
{
    lemma_side_texts_prefix(lines, i + 1, old);
    lemma_side_texts_step(lines, i, old);
    let pre = side_texts(lines.take(i), old);
    let pre1 = side_texts(lines.take(i + 1), old);
    let all = side_texts(lines, old);
    if feeds_side(lines[i].kind, old) {
        assert(pre1 == pre.push(lines[i].content));
        assert(all.take(pre1.len() as int) == pre1);
        assert(all[pre.len() as int] == pre1[pre.len() as int]);
        assert(all.take(pre.len() as int) =~= pre1.take(pre.len() as int));
        assert(pre1.take(pre.len() as int) =~= pre);
    }
}

/// What one side reads of a prefix of the lines is a prefix of what it
/// reads of all of them.
proof fn lemma_side_texts_prefix(lines: Seq<LineView>, i: int, old: bool)
    requires
        0 <= i <= lines.len(),
    ensures
        side_texts(lines.take(i), old).len() <= side_texts(lines, old).len(),
        side_texts(lines, old).take(side_texts(lines.take(i), old).len() as int) == side_texts(lines.take(i), old),
    decreases lines.len() - i,
{
    if i < lines.len() {
        lemma_side_texts_step(lines, i, old);
        lemma_side_texts_prefix(lines, i + 1, old);
        let pre = side_texts(lines.take(i), old);
        let pre1 = side_texts(lines.take(i + 1), old);
        let all = side_texts(lines, old);
        assert(all.take(pre.len() as int) =~= pre1.take(pre.len() as int));
        assert(pre1.take(pre.len() as int) =~= pre);
    } else {
        assert(lines.take(i) == lines);
        assert(side_texts(lines, old).take(side_texts(lines, old).len() as int) =~= side_texts(lines, old));
    }
}

} // verus!


verus! {

/// The text of drawn spans, joined.
pub open spec fn drawn_text(s: Seq<(SpanStyle, Seq<char>)>) -> Seq<char>
    decreases s.len(),
{
    if s.len() == 0 { Seq::empty() } else { drawn_text(s.drop_last()) + s.last().1 }
}

/// The text of highlighted pieces, joined.
pub open spec fn pieces_text(s: SpanList) -> Seq<char>
    decreases s.len(),
{
    if s.len() == 0 { Seq::empty() } else { pieces_text(s.drop_last()) + s.last().1 }
}

proof fn lemma_drawn_text_append(a: Seq<(SpanStyle, Seq<char>)>, b: Seq<(SpanStyle, Seq<char>)>)
    ensures
        drawn_text(a + b) == drawn_text(a) + drawn_text(b),
    decreases b.len(),
{
    if b.len() == 0 {
        assert(a + b == a);
        assert(drawn_text(a) + Seq::empty() == drawn_text(a));
    } else {
        lemma_drawn_text_append(a, b.drop_last());
        assert((a + b).drop_last() == a + b.drop_last());
        assert(drawn_text(a) + (drawn_text(b.drop_last()) + b.last().1) == (drawn_text(a) + drawn_text(b.drop_last())) + b.last().1);
    }
}

proof fn lemma_restyled_text(body: SpanList, bg: Option<TermColor>)
    ensures
        drawn_text(body.map_values(|p: (SyntaxStyle, Seq<char>)| (text_style(p.0, bg), p.1))) == pieces_text(body),
    decreases body.len(),
{
    if body.len() > 0 {
        lemma_restyled_text(body.drop_last(), bg);
        assert(body.map_values(|p: (SyntaxStyle, Seq<char>)| (text_style(p.0, bg), p.1)).drop_last()
            == body.drop_last().map_values(|p: (SyntaxStyle, Seq<char>)| (text_style(p.0, bg), p.1)));
    }
}

/// Drawing keeps the text: a drawn line reads as its marker followed by
/// the text of its highlighted pieces, whatever their colours.
pub proof fn law_drawn_line_keeps_text(kind: DiffLineKind, body: SpanList)
    ensures
        drawn_text(compose_spans(kind, body)) == diff_marker(kind) + pieces_text(body),
{
    reveal_strlit("");
    let marker = if diff_marker(kind).len() == 0 {
        Seq::<(SpanStyle, Seq<char>)>::empty()
    } else {
        seq![(marker_style(kind), diff_marker(kind))]
    };
    let rest = body.map_values(|p: (SyntaxStyle, Seq<char>)| (text_style(p.0, kind_background(kind)), p.1));
    lemma_drawn_text_append(marker, rest);
    lemma_restyled_text(body, kind_background(kind));
    if diff_marker(kind).len() == 0 {
        assert(drawn_text(marker) == Seq::<char>::empty());
        assert(diff_marker(kind) == Seq::<char>::empty());
    } else {
        assert(marker.drop_last() =~= Seq::<(SpanStyle, Seq<char>)>::empty());
        assert(drawn_text(marker.drop_last()) == Seq::<char>::empty());
        assert(marker.last().1 == diff_marker(kind));
        assert(Seq::<char>::empty() + diff_marker(kind) =~= diff_marker(kind));
    }
}

/// Headers are no source code: each is drawn as one span holding its whole
/// text in the header colours (on the hunk background for hunk headers).
pub proof fn law_headers_drawn_whole(
    lines: Seq<LineView>,
    old_res: Seq<Option<SpanList>>,
    new_res: Seq<Option<SpanList>>,
    header: SyntaxStyle,
    i: int,
)
    requires
        0 <= i < lines.len(),
        lines[i].kind == DiffLineKind::HunkHeader || lines[i].kind == DiffLineKind::FileHeader,
    ensures
        merged(lines, old_res, new_res, header)[i]
            == seq![(text_style(header, kind_background(lines[i].kind)), lines[i].content)],
{
    reveal_strlit("");
    let body = seq![(header, lines[i].content)];
    assert(body.map_values(|p: (SyntaxStyle, Seq<char>)| (text_style(p.0, kind_background(lines[i].kind)), p.1))
        =~= seq![(text_style(header, kind_background(lines[i].kind)), lines[i].content)]);
    assert(compose_spans(lines[i].kind, body) =~= seq![(text_style(header, kind_background(lines[i].kind)), lines[i].content)]);
}

/// The old version's results reach only deletions and the new version's
/// only context lines and additions: changing one side's results leaves
/// every line that the other side draws as it was.
pub proof fn law_sides_do_not_leak(
    lines: Seq<LineView>,
    old1: Seq<Option<SpanList>>,
    old2: Seq<Option<SpanList>>,
    new1: Seq<Option<SpanList>>,
    new2: Seq<Option<SpanList>>,
    header: SyntaxStyle,
    i: int,
)
    requires
        0 <= i < lines.len(),
    ensures
        lines[i].kind != DiffLineKind::Deletion
            ==> merged(lines, old1, new1, header)[i] == merged(lines, old2, new1, header)[i],
        (lines[i].kind == DiffLineKind::Deletion || lines[i].kind == DiffLineKind::HunkHeader
            || lines[i].kind == DiffLineKind::FileHeader)
            ==> merged(lines, old1, new1, header)[i] == merged(lines, old1, new2, header)[i],
{
}

/// A context line belongs to both versions, so both parsers read it; a
/// deletion is read only by the old version's parser, an addition only by
/// the new one's, and a header by neither.
pub proof fn law_who_reads_a_line(lines: Seq<LineView>, l: LineView)
    ensures
        l.kind == DiffLineKind::Context ==> side_texts(lines.push(l), true) == side_texts(lines, true).push(l.content)
            && side_texts(lines.push(l), false) == side_texts(lines, false).push(l.content),
        l.kind == DiffLineKind::Deletion ==> side_texts(lines.push(l), true) == side_texts(lines, true).push(l.content)
            && side_texts(lines.push(l), false) == side_texts(lines, false),
        l.kind == DiffLineKind::Addition ==> side_texts(lines.push(l), true) == side_texts(lines, true)
            && side_texts(lines.push(l), false) == side_texts(lines, false).push(l.content),
        (l.kind == DiffLineKind::HunkHeader || l.kind == DiffLineKind::FileHeader)
            ==> side_texts(lines.push(l), true) == side_texts(lines, true)
            && side_texts(lines.push(l), false) == side_texts(lines, false),
{
    assert(lines.push(l).drop_last() == lines);
}

} // verus!

verus! {

/// One parser per side: a line that is not a header is drawn from what its
/// own side's parser read before it and from nothing else. Two diffs in
/// which such a line has the same text, kind and same-side history draw it
/// the same, whatever the other side's lines and the headers are; so an
/// unclosed string or comment among the deletions never reaches an
/// addition, and a header never reaches a line after it.
pub proof fn law_line_depends_on_its_side_only(
    set: SyntaxSet,
    themes: ThemeSet,
    path: Option<Seq<char>>,
    lines1: Seq<LineView>,
    lines2: Seq<LineView>,
    i: int,
    j: int,
)
    requires
        0 <= i < lines1.len(),
        0 <= j < lines2.len(),
        lines1[i] == lines2[j],
        lines1[i].kind != DiffLineKind::HunkHeader,
        lines1[i].kind != DiffLineKind::FileHeader,
        side_texts(lines1.take(i), lines1[i].kind == DiffLineKind::Deletion)
            == side_texts(lines2.take(j), lines1[i].kind == DiffLineKind::Deletion),
    ensures
        drawn_pieces(set, themes, path, lines1, i) == drawn_pieces(set, themes, path, lines2, j),
        drawn_diff(set, themes, path, lines1)[i] == drawn_diff(set, themes, path, lines2)[j],
{
    let old = lines1[i].kind == DiffLineKind::Deletion;
    lemma_side_texts_position(lines1, i, old);
    lemma_side_texts_position(lines2, j, old);
}

/// A context line is read by both parsers: a deletion and an addition with
/// the same text, whose sides have read the same lines before them (as
/// after shared context), get the same highlighted pieces, so their text
/// is drawn in the same colours; only the marker and background differ.
pub proof fn law_both_sides_agree_after_shared_context(
    set: SyntaxSet,
    themes: ThemeSet,
    path: Option<Seq<char>>,
    lines: Seq<LineView>,
    i: int,
    j: int,
)
    requires
        0 <= i < lines.len(),
        0 <= j < lines.len(),
        lines[i].kind == DiffLineKind::Deletion,
        lines[j].kind == DiffLineKind::Addition,
        lines[i].content == lines[j].content,
        side_texts(lines.take(i), true) == side_texts(lines.take(j), false),
    ensures
        drawn_pieces(set, themes, path, lines, i) == drawn_pieces(set, themes, path, lines, j),
        drawn_diff(set, themes, path, lines)[i].len() == drawn_diff(set, themes, path, lines)[j].len(),
        forall|k: int| 1 <= k < drawn_diff(set, themes, path, lines)[i].len() ==>
            (#[trigger] drawn_diff(set, themes, path, lines)[i][k]).0.fg == drawn_diff(set, themes, path, lines)[j][k].0.fg
            && drawn_diff(set, themes, path, lines)[i][k].1 == drawn_diff(set, themes, path, lines)[j][k].1,
{
    reveal_strlit("+");
    reveal_strlit("-");
    lemma_side_texts_position(lines, i, true);
    lemma_side_texts_position(lines, j, false);
}

/// A file is highlighted with the syntax of its extension whenever the
/// syntax set knows that extension, whatever its length; as plain text
/// when the set does not know it, when the path has no extension, and when
/// there is no path.
pub proof fn law_syntax_follows_extension(set: SyntaxSet, path: Seq<char>, e: Seq<char>)
    ensures
        path_extension(path) == Some(e) && knows_extension(set, e) ==> syntax_choice(set, Some(path)) == Some(e),
        path_extension(path) == Some(e) && !knows_extension(set, e) ==> syntax_choice(set, Some(path)) is None,
        path_extension(path) is None ==> syntax_choice(set, Some(path)) is None,
        syntax_choice(set, None) is None,
{
}

} // verus!
