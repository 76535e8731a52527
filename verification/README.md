# git-diff-tui (`gdf`)

A terminal viewer for the changes in a git working tree: a file list on the
left (staged `●` / unstaged `○`, with the change kind), the syntax-highlighted
diff of the selected file on the right, and a status bar.

- `src/` is the library, with its contracts and proofs: the file list (built from git's
  deltas and sorted staged first, then by path), diff assembly (line kinds,
  the 10,000-line cut with its notice, untracked files shown as additions,
  "Binary file differs" for files that cannot be read as text), the layout of
  highlighted lines (markers, backgrounds, headers drawn whole, one parser
  per side of the diff, so that what is highlighted on one side depends on
  that side's lines alone), the scroll viewport, the key and mouse-wheel
  bindings and the viewer's state (which file is asked for, and what is shown
  or recorded for each answer of the repository), and the text shown in the
  panels (with control characters made harmless).
- The calls into syntect (loading the bundled syntaxes and themes, choosing a
  syntax by extension, highlighting a side's lines) are trusted: their
  contracts say what syntect's source shows, and name the highlighter's
  output where it would take pages to state.
- `app/` is the program: reading the repository with git2, drawing with
  ratatui and reading keys with crossterm.
- `tests/` holds the tests of the library.

Keys: `j`/`k` select, `J`/`K` (PageDown/PageUp, `Ctrl+d`/`Ctrl+u`) scroll ten
lines, `h`/`l` scroll four columns, `0` left edge, `g` top, `G` end, `r`
reload, `q`/Esc quit.
