//! The scroll position of the diff panel, kept within what can be shown.

use vstd::prelude::*;
use crate::git::{DiffLine, line_width};

verus! {

/// The abstract state of one scroll axis: how large the content is, how much
/// of it is visible, and where the visible part starts.
pub struct AxisState {
    pub offset: int,
    pub content: int,
    pub visible: int,
}

/// The largest offset that still keeps the end of the content on screen:
/// `content - visible` (never negative), capped at `u16::MAX`.
pub open spec fn max_offset_of(content: int, visible: int) -> int {
    let room = if content > visible { content - visible } else { 0 };
    if room > u16::MAX { u16::MAX as int } else { room }
}

pub open spec fn min_int(a: int, b: int) -> int {
    if a <= b { a } else { b }
}

impl AxisState {
    pub open spec fn max_offset(self) -> int {
        max_offset_of(self.content, self.visible)
    }

    /// The offset lies in the range that can be shown.
    pub open spec fn in_range(self) -> bool {
        0 <= self.offset <= self.max_offset()
    }

    /// New content size; the offset is pulled back to the new limit.
    pub open spec fn with_content(self, content: int) -> AxisState {
        AxisState {
            offset: min_int(self.offset, max_offset_of(content, self.visible)),
            content,
            visible: self.visible,
        }
    }

    /// New visible size; the offset is pulled back to the new limit.
    pub open spec fn with_visible(self, visible: int) -> AxisState {
        AxisState {
            offset: min_int(self.offset, max_offset_of(self.content, visible)),
            content: self.content,
            visible,
        }
    }

    /// Moves toward the end by `amount`, stopping at the limit.
    pub open spec fn forward(self, amount: int) -> AxisState {
        AxisState { offset: min_int(self.offset + amount, self.max_offset()), ..self }
    }

    /// Moves toward the start by `amount`, stopping at zero.
    pub open spec fn backward(self, amount: int) -> AxisState {
        AxisState { offset: if self.offset > amount { self.offset - amount } else { 0 }, ..self }
    }

    pub open spec fn to_start(self) -> AxisState {
        AxisState { offset: 0, ..self }
    }

    pub open spec fn to_end(self) -> AxisState {
        AxisState { offset: self.max_offset(), ..self }
    }
}

/// When the whole content fits in the visible area there is nothing to
/// scroll: moving toward the end leaves the offset at zero.
pub proof fn law_no_scroll_when_content_fits(a: AxisState, amount: int)
    requires
        a.in_range(),
        a.content <= a.visible,
        0 <= amount,
    ensures
        a.forward(amount).offset == 0,
{
}

/// Moving toward the end never goes past the limit, and moving far enough
/// lands exactly where jumping to the end does.
pub proof fn law_forward_stops_at_end(a: AxisState, amount: int)
    requires
        a.in_range(),
        0 <= amount,
    ensures
        a.forward(amount).in_range(),
        a.offset <= a.forward(amount).offset,
        a.offset + amount >= a.max_offset() ==> a.forward(amount) == a.to_end(),
{
}

/// Moving toward the start never goes below zero and never moves forward.
pub proof fn law_backward_stops_at_start(a: AxisState, amount: int)
    requires
        a.in_range(),
        0 <= amount,
    ensures
        a.backward(amount).in_range(),
        a.backward(amount).offset <= a.offset,
        amount >= a.offset ==> a.backward(amount) == a.to_start(),
{
}

/// A move toward the end that was not cut short by the limit is undone by
/// the same move toward the start.
pub proof fn law_backward_undoes_forward(a: AxisState, amount: int)
    requires
        a.in_range(),
        0 <= amount,
        a.offset + amount <= a.max_offset(),
    ensures
        a.forward(amount).backward(amount) == a,
{
}

/// Jumping to the end puts the last line at the bottom of the view: the
/// offset is the content size minus the visible size (while that fits in
/// a `u16`), and zero when everything is visible.
pub proof fn law_end_shows_last_line_at_bottom(a: AxisState)
    ensures
        a.content >= a.visible && a.content - a.visible <= u16::MAX ==> a.to_end().offset == a.content - a.visible,
        a.content <= a.visible ==> a.to_end().offset == 0,
        a.to_end().to_end() == a.to_end(),
{
}

/// Whatever the content or visible size becomes, the offset is pulled back
/// into the range that can be shown, and it only moves when it has to.
pub proof fn law_resizing_keeps_offset_in_range(a: AxisState, content: int, visible: int)
    requires
        a.in_range(),
        0 <= content,
        0 <= visible,
    ensures
        a.with_content(content).in_range(),
        a.with_visible(visible).in_range(),
        a.offset <= max_offset_of(content, a.visible) ==> a.with_content(content).offset == a.offset,
        a.offset <= max_offset_of(a.content, visible) ==> a.with_visible(visible).offset == a.offset,
{
}

/// The longest line width in `lines`, or 0 when there is none.
pub open spec fn widest(lines: Seq<DiffLine>) -> nat
    decreases lines.len(),
{
    if lines.len() == 0 {
        0
    } else {
        let rest = widest(lines.drop_last());
        let w = line_width(lines.last().content@);
        if w > rest { w } else { rest }
    }
}

/// One scroll axis: content size, visible size and current offset.
#[derive(Debug)]
struct Axis {
    offset: u16,
    content: usize,
    visible: u16,
}

impl Axis {
    spec fn state(&self) -> AxisState {
        AxisState { offset: self.offset as int, content: self.content as int, visible: self.visible as int }
    }

    spec fn inv(&self) -> bool {
        self.state().in_range()
    }

    fn set_content(&mut self, content: usize)
        requires
            old(self).inv(),
        ensures
            final(self).inv(),
            final(self).state() == old(self).state().with_content(content as int),
        no_unwind
    {
        self.content = content;
        self.clamp();
    }

    fn set_visible(&mut self, visible: u16)
        requires
            old(self).inv(),
        ensures
            final(self).inv(),
            final(self).state() == old(self).state().with_visible(visible as int),
        no_unwind
    {
        self.visible = visible;
        self.clamp();
    }

    fn forward(&mut self, amount: u16)
        requires
            old(self).inv(),
        ensures
            final(self).inv(),
            final(self).state() == old(self).state().forward(amount as int),
        no_unwind
    {
        let limit = self.max_offset();
        // The offset never exceeds the limit, so the sum below cannot overflow.
        self.offset = if amount < limit - self.offset { self.offset + amount } else { limit };
    }

    fn backward(&mut self, amount: u16)
        requires
            old(self).inv(),
        ensures
            final(self).inv(),
            final(self).state() == old(self).state().backward(amount as int),
        no_unwind
    {
        self.offset = if self.offset > amount { self.offset - amount } else { 0 };
    }

    fn scroll_to_start(&mut self)
        requires
            old(self).inv(),
        ensures
            final(self).inv(),
            final(self).state() == old(self).state().to_start(),
        no_unwind
    {
        self.offset = 0;
    }

    fn scroll_to_end(&mut self)
        requires
            old(self).inv(),
        ensures
            final(self).inv(),
            final(self).state() == old(self).state().to_end(),
        no_unwind
    {
        self.offset = self.max_offset();
    }

    /// Pulls the offset back to the current limit.
    fn clamp(&mut self)
        ensures
            final(self).inv(),
            final(self).state() == (AxisState {
                offset: min_int(old(self).offset as int, old(self).state().max_offset()),
                ..old(self).state()
            }),
        no_unwind
    {
        let limit = self.max_offset();
        if limit < self.offset {
            self.offset = limit;
        }
    }

    /// The largest offset that keeps the end of the content on screen.
    fn max_offset(&self) -> (m: u16)
        ensures
            m as int == self.state().max_offset(),
        no_unwind
    {
        let visible = self.visible as usize;
        let room = if self.content > visible { self.content - visible } else { 0 };
        if room < 65535 {
            room as u16
        } else {
            u16::MAX
        }
    }
}

/// Where the diff preview is scrolled to.
///
/// Holds, for each axis, the size of the content, the size of the visible
/// area and the offset, and keeps the offset within the range that can be
/// shown.
#[derive(Debug)]
pub struct DiffViewport {
    vertical: Axis,
    horizontal: Axis,
}

impl View for DiffViewport {
    /// The vertical axis, then the horizontal one.
    type V = (AxisState, AxisState);

    closed spec fn view(&self) -> (AxisState, AxisState) {
        (self.vertical.state(), self.horizontal.state())
    }
}

impl DiffViewport {
    #[verifier::type_invariant]
    spec fn inv(self) -> bool {
        self.vertical.inv() && self.horizontal.inv()
    }

    /// Both offsets lie in the range that can be shown.
    pub open spec fn in_range(self) -> bool {
        self@.0.in_range() && self@.1.in_range()
    }

    /// An empty viewport: no content, nothing visible, offsets at zero.
    pub fn new() -> (v: Self)
        ensures
            v@.0 == (AxisState { offset: 0, content: 0, visible: 0 }),
            v@.1 == (AxisState { offset: 0, content: 0, visible: 0 }),
    {
        DiffViewport {
            vertical: Axis { offset: 0, content: 0, visible: 0 },
            horizontal: Axis { offset: 0, content: 0, visible: 0 },
        }
    }

    /// Sets the diff on show: its number of lines bounds the vertical
    /// scroll and its widest line the horizontal one.
    pub fn set_content(&mut self, lines: &[DiffLine])
        ensures
            final(self)@.0 == old(self)@.0.with_content(lines@.len() as int),
            final(self)@.1 == old(self)@.1.with_content(widest(lines@) as int),
    {
        proof { use_type_invariant(&*self); }
        let width = widest_line(lines);
        self.vertical.set_content(lines.len());
        self.horizontal.set_content(width);
    }

    /// The size of the area in which the diff is visible, inside the frame.
    pub fn set_visible_size(&mut self, width: u16, height: u16)
        ensures
            final(self)@.0 == old(self)@.0.with_visible(height as int),
            final(self)@.1 == old(self)@.1.with_visible(width as int),
    {
        proof { use_type_invariant(&*self); }
        self.horizontal.set_visible(width);
        self.vertical.set_visible(height);
    }

    pub fn scroll_down(&mut self, amount: u16)
        ensures
            final(self)@.0 == old(self)@.0.forward(amount as int),
            final(self)@.1 == old(self)@.1,
    {
        proof { use_type_invariant(&*self); }
        self.vertical.forward(amount);
    }

    pub fn scroll_up(&mut self, amount: u16)
        ensures
            final(self)@.0 == old(self)@.0.backward(amount as int),
            final(self)@.1 == old(self)@.1,
    {
        proof { use_type_invariant(&*self); }
        self.vertical.backward(amount);
    }

    pub fn scroll_right(&mut self, amount: u16)
        ensures
            final(self)@.0 == old(self)@.0,
            final(self)@.1 == old(self)@.1.forward(amount as int),
    {
        proof { use_type_invariant(&*self); }
        self.horizontal.forward(amount);
    }

    pub fn scroll_left(&mut self, amount: u16)
        ensures
            final(self)@.0 == old(self)@.0,
            final(self)@.1 == old(self)@.1.backward(amount as int),
    {
        proof { use_type_invariant(&*self); }
        self.horizontal.backward(amount);
    }

    /// Back to the first line; the horizontal position is kept.
    pub fn scroll_to_top(&mut self)
        ensures
            final(self)@.0 == old(self)@.0.to_start(),
            final(self)@.1 == old(self)@.1,
    {
        proof { use_type_invariant(&*self); }
        self.vertical.scroll_to_start();
    }

    /// Back to the left edge; the vertical position is kept.
    pub fn scroll_to_left(&mut self)
        ensures
            final(self)@.0 == old(self)@.0,
            final(self)@.1 == old(self)@.1.to_start(),
    {
        proof { use_type_invariant(&*self); }
        self.horizontal.scroll_to_start();
    }

    /// To the position where the last line sits at the bottom of the view.
    pub fn scroll_to_end(&mut self)
        ensures
            final(self)@.0 == old(self)@.0.to_end(),
            final(self)@.1 == old(self)@.1,
    {
        proof { use_type_invariant(&*self); }
        self.vertical.scroll_to_end();
    }

    /// Back to the top left corner, as when another file is chosen.
    pub fn reset(&mut self)
        ensures
            final(self)@.0 == old(self)@.0.to_start(),
            final(self)@.1 == old(self)@.1.to_start(),
    {
        self.scroll_to_top();
        self.scroll_to_left();
    }

    /// The (vertical, horizontal) offsets, always within the range that can be shown.
    pub fn offset(&self) -> (o: (u16, u16))
        ensures
            o.0 as int == self@.0.offset,
            o.1 as int == self@.1.offset,
            self.in_range(),
    {
        proof { use_type_invariant(self); }
        (self.vertical.offset, self.horizontal.offset)
    }
}

/// The width of the widest line, or 0 for no lines.
fn widest_line(lines: &[DiffLine]) -> (w: usize)
    ensures
        w as int == widest(lines@),
{
    let mut best: usize = 0;
    let mut i: usize = 0;
    while i < lines.len()
        invariant
            i <= lines@.len(),
            best as int == widest(lines@.take(i as int)),
        decreases lines@.len() - i,
    {
        let w = lines[i].display_width();
        assert(lines@.take(i as int + 1).drop_last() == lines@.take(i as int));
        if w > best {
            best = w;
        }
        i = i + 1;
    }
    assert(lines@.take(lines@.len() as int) == lines@);
    best
}

/// The widest line of a diff is at least as wide as each of its lines, and
/// as wide as one of them when the diff is not empty (none is 0 wide).
pub proof fn law_widest_is_the_maximum(lines: Seq<DiffLine>)
    ensures
        forall|i: int| 0 <= i < lines.len() ==> line_width((#[trigger] lines[i]).content@) <= widest(lines),
        lines.len() > 0 ==> exists|i: int| 0 <= i < lines.len() && line_width((#[trigger] lines[i]).content@) == widest(lines),
        lines.len() == 0 ==> widest(lines) == 0,
    decreases lines.len(),
{
    if lines.len() > 0 {
        let rest = lines.drop_last();
        law_widest_is_the_maximum(rest);
        assert forall|i: int| 0 <= i < lines.len() implies line_width((#[trigger] lines[i]).content@) <= widest(lines) by {
            if i < lines.len() - 1 {
                assert(lines[i] == rest[i]);
            }
        }
        let last = lines.len() - 1;
        if line_width(lines[last].content@) == widest(lines) {
            assert(line_width(lines[last].content@) == widest(lines));
        } else {
            let k = choose|k: int| 0 <= k < rest.len() && line_width((#[trigger] rest[k]).content@) == widest(rest);
            assert(lines[k] == rest[k]);
        }
    }
}

} // verus!
