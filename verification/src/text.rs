//! Character-level text helpers and the line splitting of text.

use vstd::prelude::*;

verus! {

/// Appends one character to a string.
///
/// Calls `String::push`, which adds `c` at the end of the string.
#[verifier::external_body]
pub(crate) fn push_char(s: &mut String, c: char)
    ensures
        final(s)@ == old(s)@.push(c),
{
    s.push(c);
}

/// Appends `t` to `s`.
pub fn push_str(s: &mut String, t: &str)
    ensures
        final(s)@ == old(s)@ + t@,
{
    s.append(t);
}

/// The characters of `s`, in order.
pub fn chars_of(s: &str) -> (v: Vec<char>)
    ensures
        v@ == s@,
{
    broadcast use vstd::string::group_string_axioms;
    let mut v: Vec<char> = Vec::new();
    for c in it: s.chars()
        invariant
            v@ == it.seq().take(it.index() as int),
            it.seq() == s@,
    {
        v.push(c);
    }
    v
}

} // verus!

verus! {

/// The string made of the first `n` characters of `v`.
pub fn string_from_chars(v: &Vec<char>, n: usize) -> (s: String)
    requires
        n <= v@.len(),
    ensures
        s@ == v@.take(n as int),
{
    let mut s = String::new();
    let mut i: usize = 0;
    while i < n
        invariant
            i <= n <= v@.len(),
            s@ == v@.take(i as int),
        decreases n - i,
    {
        push_char(&mut s, v[i]);
        assert(v@.take(i as int + 1) == v@.take(i as int).push(v@[i as int]));
        i = i + 1;
    }
    s
}

/// A line without the carriage return that ended it before its `\n`.
pub open spec fn strip_cr(line: Seq<char>) -> Seq<char> {
    if line.len() > 0 && line.last() == '\r' { line.drop_last() } else { line }
}

/// The lines of `rest`, when `cur` has already been read as the start of
/// the current line: a `\n` ends a line (and a `\r` just before it is
/// dropped), and text after the last `\n` is a last line when it is not
/// empty.
pub open spec fn lines_from(cur: Seq<char>, rest: Seq<char>) -> Seq<Seq<char>>
    decreases rest.len(),
{
    if rest.len() == 0 {
        if cur.len() == 0 { Seq::empty() } else { seq![cur] }
    } else if rest[0] == '\n' {
        seq![strip_cr(cur)] + lines_from(Seq::empty(), rest.drop_first())
    } else {
        lines_from(cur.push(rest[0]), rest.drop_first())
    }
}

/// The lines of a text, as `str::lines` gives them.
pub open spec fn text_lines(s: Seq<char>) -> Seq<Seq<char>> {
    lines_from(Seq::empty(), s)
}

} // verus!

verus! {

pub open spec fn has_no_newline(s: Seq<char>) -> bool {
    forall|j: int| 0 <= j < s.len() ==> s[j] != '\n'
}

proof fn lemma_lines_from_no_newline(cur: Seq<char>, rest: Seq<char>)
    requires
        has_no_newline(cur),
    ensures
        forall|i: int| 0 <= i < lines_from(cur, rest).len() ==> has_no_newline(#[trigger] lines_from(cur, rest)[i]),
    decreases rest.len(),
{
    if rest.len() == 0 {
        if cur.len() > 0 {
            assert(lines_from(cur, rest) == seq![cur]);
            assert(seq![cur][0] == cur);
        }
    } else if rest[0] == '\n' {
        assert(has_no_newline(strip_cr(cur))) by {
            assert forall|j: int| 0 <= j < strip_cr(cur).len() implies strip_cr(cur)[j] != '\n' by {
                assert(strip_cr(cur)[j] == cur[j]);
            }
        }
        lemma_lines_from_no_newline(Seq::empty(), rest.drop_first());
        let tail = lines_from(Seq::empty(), rest.drop_first());
        let all = seq![strip_cr(cur)] + tail;
        assert(lines_from(cur, rest) == all);
        assert forall|i: int| 0 <= i < all.len() implies has_no_newline(#[trigger] all[i]) by {
            if i == 0 {
                assert(all[0] == strip_cr(cur));
            } else {
                assert(all[i] == tail[i - 1]);
            }
        }
    } else {
        assert(has_no_newline(cur.push(rest[0]))) by {
            assert forall|j: int| 0 <= j < cur.len() + 1 implies cur.push(rest[0])[j] != '\n' by {
                if j < cur.len() {
                    assert(cur.push(rest[0])[j] == cur[j]);
                }
            }
        }
        lemma_lines_from_no_newline(cur.push(rest[0]), rest.drop_first());
        assert(lines_from(cur, rest) == lines_from(cur.push(rest[0]), rest.drop_first()));
    }
}

/// No line of a text holds a line feed: the lines are exactly the pieces
/// between the line ends.
pub proof fn law_lines_hold_no_line_feed(s: Seq<char>)
    ensures
        forall|i: int| 0 <= i < text_lines(s).len() ==> has_no_newline(#[trigger] text_lines(s)[i]),
{
    lemma_lines_from_no_newline(Seq::empty(), s);
}

} // verus!
