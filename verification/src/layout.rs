//! Where the entries of a menu go.
//!
//! Entries are stacked below the menu's header, in the order in which they
//! were appended, and are never moved afterwards. Appending an action
//! evens out widths: walking down the stack, each entry is stretched to the
//! widest one seen so far, counting the new label's width. Appending a
//! separator stretches nothing.

use vstd::prelude::*;
use crate::geometry::{clamp_i32, clamp_u32, Rect};
use crate::paint::GLYPH_WIDTH;

verus! {

/// The larger of two integers.
pub open spec fn larger(a: int, b: int) -> int {
    if a >= b {
        a
    } else {
        b
    }
}

/// The width that a label of `chars` characters asks for: one glyph cell
/// for each, as far as a `u32` can tell.
pub open spec fn text_width(chars: nat) -> int {
    clamp_u32(GLYPH_WIDTH * chars)
}

/// The largest width among `floor` and the first `n` of `rects`.
pub open spec fn widest(rects: Seq<Rect>, n: int, floor: int) -> int
    decreases n,
{
    if n <= 0 {
        floor
    } else {
        larger(widest(rects, n - 1, floor), rects[n - 1].width as int)
    }
}

/// The heights of the first `n` of `rects`, added up.
pub open spec fn heights(rects: Seq<Rect>, n: int) -> int
    decreases n,
{
    if n <= 0 {
        0
    } else {
        heights(rects, n - 1) + rects[n - 1].height
    }
}

/// The row just below the first `n` of `rects`, stacked under `header`.
pub open spec fn stack_bottom(header: Rect, rects: Seq<Rect>, n: int) -> int {
    header.y + header.height + heights(rects, n)
}

/// The place of a new entry below `rects`: the header's column and height,
/// the first free row, and the widest width among `floor` and `rects`.
pub open spec fn slot(header: Rect, rects: Seq<Rect>, floor: int) -> Rect {
    Rect {
        x: header.x,
        y: clamp_i32(stack_bottom(header, rects, rects.len() as int)) as i32,
        width: widest(rects, rects.len() as int, floor) as u32,
        height: header.height,
    }
}

/// `rects` after the walk that evens out widths: each one is as wide as
/// the widest among `floor`, those above it and itself.
pub open spec fn stretched(rects: Seq<Rect>, floor: int) -> Seq<Rect> {
    Seq::new(rects.len(), |i: int| Rect { width: widest(rects, i + 1, floor) as u32, ..rects[i] })
}

/// `heights` only looks at the first `n` rectangles.
pub proof fn lemma_heights_of_prefix(a: Seq<Rect>, b: Seq<Rect>, n: int)
    requires
        n <= a.len(),
        n <= b.len(),
        forall|i: int| 0 <= i < n ==> a[i].height == b[i].height,
    ensures
        heights(a, n) == heights(b, n),
    decreases n,
{
    if n > 0 {
        lemma_heights_of_prefix(a, b, n - 1);
    }
}

/// `widest` lies between `floor` and the `u32` range as long as `floor`
/// does, and is at least each width it has seen.
pub proof fn lemma_widest_bounds(rects: Seq<Rect>, n: int, floor: int)
    requires
        0 <= floor <= u32::MAX,
        n <= rects.len(),
    ensures
        floor <= widest(rects, n, floor) <= u32::MAX,
        forall|i: int| 0 <= i < n ==> rects[i].width <= widest(rects, n, floor),
    decreases n,
{
    if n > 0 {
        lemma_widest_bounds(rects, n - 1, floor);
    }
}

/// A stack never has a negative height.
pub proof fn lemma_heights_nonnegative(rects: Seq<Rect>, n: int)
    ensures
        heights(rects, n) >= 0,
    decreases n,
{
    if n > 0 {
        lemma_heights_nonnegative(rects, n - 1);
    }
}

/// One append to a menu, as far as layout goes.
pub enum Append {
    /// An action whose label has `chars` characters.
    Action { chars: nat },
    /// A separator.
    Separator,
}

impl Append {
    /// The width that the new entry asks for on its own account: an action
    /// asks for its label's width, a separator for the header's.
    pub open spec fn asks(self, header: Rect) -> int {
        match self {
            Append::Action { chars } => text_width(chars),
            Append::Separator => header.width as int,
        }
    }

    /// The width that the append asks of the entries above it: an action
    /// asks for its label's width, a separator for nothing.
    pub open spec fn asks_of_others(self) -> int {
        match self {
            Append::Action { chars } => text_width(chars),
            Append::Separator => 0,
        }
    }
}

/// The entries' rectangles after one append under `header`.
pub open spec fn appended(header: Rect, rects: Seq<Rect>, append: Append) -> Seq<Rect> {
    match append {
        Append::Action { chars } => stretched(rects, text_width(chars)).push(
            slot(header, rects, text_width(chars)),
        ),
        Append::Separator => rects.push(slot(header, rects, header.width as int)),
    }
}

/// An append adds one entry at the end, leaves every entry above it in its
/// place, and never makes one narrower; a separator leaves them as they are.
pub proof fn lemma_append_only_widens(header: Rect, rects: Seq<Rect>, append: Append)
    ensures
        appended(header, rects, append).len() == rects.len() + 1,
        forall|i: int|
            0 <= i < rects.len() ==> {
                let after = #[trigger] appended(header, rects, append)[i];
                &&& after.x == rects[i].x
                &&& after.y == rects[i].y
                &&& after.height == rects[i].height
                &&& after.width >= rects[i].width
                &&& append is Separator ==> after == rects[i]
            },
{
    assert forall|i: int| 0 <= i < rects.len() implies (#[trigger] appended(
        header,
        rects,
        append,
    )[i]).width >= rects[i].width by {
        lemma_widest_bounds(rects, i + 1, append.asks_of_others());
    }
}

/// The entries' rectangles after the first `n` of `appends`, made in order
/// on an empty menu whose header stays at `header`.
pub open spec fn layout(header: Rect, appends: Seq<Append>, n: int) -> Seq<Rect>
    decreases n,
{
    if n <= 0 {
        Seq::empty()
    } else {
        appended(header, layout(header, appends, n - 1), appends[n - 1])
    }
}

/// The widest width that any of the first `n` of `appends` asks for on its
/// own account; 0 where there is none.
pub open spec fn widest_ask(header: Rect, appends: Seq<Append>, n: int) -> int
    decreases n,
{
    if n <= 0 {
        0
    } else {
        larger(widest_ask(header, appends, n - 1), appends[n - 1].asks(header))
    }
}

/// The widest label among the actions of `appends` from index `lo` up to,
/// not including, `hi`; 0 where there is none.
pub open spec fn widest_label(appends: Seq<Append>, lo: int, hi: int) -> int
    decreases hi - lo,
{
    if hi <= lo {
        0
    } else {
        larger(widest_label(appends, lo, hi - 1), appends[hi - 1].asks_of_others())
    }
}

/// Whether the first `n` of `rects` grow no narrower from the top down.
pub open spec fn widening(rects: Seq<Rect>, n: int) -> bool {
    forall|i: int, j: int| 0 <= i <= j < n ==> rects[i].width <= rects[j].width
}

/// Where the first `n` rectangles grow no narrower downwards, the widest
/// among them is the last.
proof fn lemma_widest_of_widening(rects: Seq<Rect>, n: int, floor: int)
    requires
        0 < n <= rects.len(),
        widening(rects, n),
    ensures
        widest(rects, n, floor) == larger(floor, rects[n - 1].width as int),
    decreases n,
{
    if n > 1 {
        lemma_widest_of_widening(rects, n - 1, floor);
        assert(rects[n - 2].width <= rects[n - 1].width);
    } else {
        assert(widest(rects, 0, floor) == floor);
    }
}

/// A width that was asked for fits a `u32`, and no append asks more of
/// the entries above it than on its own account.
proof fn lemma_ask_bounds(header: Rect, append: Append)
    ensures
        0 <= append.asks_of_others() <= append.asks(header) <= u32::MAX,
{
}

/// The widest request fits a `u32`.
proof fn lemma_widest_ask_bounds(header: Rect, appends: Seq<Append>, n: int)
    ensures
        0 <= widest_ask(header, appends, n) <= u32::MAX,
    decreases n,
{
    if n > 0 {
        lemma_widest_ask_bounds(header, appends, n - 1);
        lemma_ask_bounds(header, appends[n - 1]);
    }
}

/// The widest label fits a `u32`.
proof fn lemma_widest_label_bounds(appends: Seq<Append>, lo: int, hi: int)
    ensures
        0 <= widest_label(appends, lo, hi) <= u32::MAX,
    decreases hi - lo,
{
    if hi > lo {
        lemma_widest_label_bounds(appends, lo, hi - 1);
    }
}

/// The widest label of a range is the wider of the widest labels of its
/// two parts.
proof fn lemma_widest_label_split(appends: Seq<Append>, lo: int, mid: int, hi: int)
    requires
        lo <= mid <= hi,
    ensures
        widest_label(appends, lo, hi) == larger(
            widest_label(appends, lo, mid),
            widest_label(appends, mid, hi),
        ),
    decreases hi - mid,
{
    lemma_widest_label_bounds(appends, lo, mid);
    if hi > mid {
        lemma_widest_label_split(appends, lo, mid, hi - 1);
    }
}

/// Every append adds one entry.
pub proof fn lemma_layout_len(header: Rect, appends: Seq<Append>, n: int)
    requires
        0 <= n,
    ensures
        layout(header, appends, n).len() == n,
    decreases n,
{
    if n > 0 {
        lemma_layout_len(header, appends, n - 1);
    }
}

/// Each entry of a menu whose header stays put is as wide as the widest
/// request made up to its own append, its own included, or as the widest
/// label appended after it, whichever is wider. The stack therefore grows
/// no narrower from the top down.
pub proof fn lemma_layout_widths(header: Rect, appends: Seq<Append>, n: int)
    requires
        0 <= n <= appends.len(),
    ensures
        layout(header, appends, n).len() == n,
        widening(layout(header, appends, n), n),
        forall|i: int|
            0 <= i < n ==> (#[trigger] layout(header, appends, n)[i]).width == larger(
                widest_ask(header, appends, i + 1),
                widest_label(appends, i + 1, n),
            ),
    decreases n,
{
    if n > 0 {
        let m = n - 1;
        let before = layout(header, appends, m);
        let after = layout(header, appends, n);
        let floor = appends[m].asks_of_others();
        let own = appends[m].asks(header);
        lemma_layout_widths(header, appends, m);
        lemma_ask_bounds(header, appends[m]);
        lemma_widest_ask_bounds(header, appends, m);
        lemma_widest_bounds(before, m, own);
        if m > 0 {
            lemma_widest_of_widening(before, m, own);
            lemma_widest_label_bounds(appends, m, m);
        }
        assert(after[m].width == widest_ask(header, appends, n));
        assert forall|i: int| 0 <= i < m implies (#[trigger] after[i]).width == larger(
            widest_ask(header, appends, i + 1),
            widest_label(appends, i + 1, n),
        ) && after[i].width <= after[m].width by {
            lemma_widest_label_bounds(appends, i + 1, m);
            if appends[m] is Action {
                lemma_widest_of_widening(before, i + 1, floor);
                lemma_widest_bounds(before, i + 1, floor);
            }
        }
        assert(widest_label(appends, n, n) == 0);
        assert forall|i: int, j: int| 0 <= i <= j < n implies after[i].width <= after[j].width by {
            if j < m {
                assert(before[i].width <= before[j].width);
                if appends[m] is Action {
                    lemma_widest_of_widening(before, i + 1, floor);
                    lemma_widest_of_widening(before, j + 1, floor);
                    lemma_widest_bounds(before, i + 1, floor);
                    lemma_widest_bounds(before, j + 1, floor);
                }
            }
        }
    }
}

/// Width normalization. In a menu whose header stays put, an action is as
/// wide as the widest label appended so far, provided no separator brought
/// in a wider header: either no separator was appended before the action,
/// or the header is no wider than that label.
pub proof fn lemma_action_width_is_widest_label(header: Rect, appends: Seq<Append>, n: int, i: int)
    requires
        0 <= i < n <= appends.len(),
        appends[i] is Action,
        header.width <= widest_label(appends, 0, n) || forall|k: int|
            0 <= k < i ==> appends[k] is Action,
    ensures
        layout(header, appends, n)[i].width == widest_label(appends, 0, n),
{
    lemma_layout_widths(header, appends, n);
    lemma_widest_label_split(appends, 0, i + 1, n);
    lemma_asks_between(header, appends, i + 1);
    if forall|k: int| 0 <= k < i ==> appends[k] is Action {
        lemma_asks_of_actions(header, appends, i + 1);
    }
}

/// The widest request among the first `n` appends is at least their widest
/// label, and at most the wider of that label and the header.
proof fn lemma_asks_between(header: Rect, appends: Seq<Append>, n: int)
    ensures
        widest_label(appends, 0, n) <= widest_ask(header, appends, n) <= larger(
            widest_label(appends, 0, n),
            header.width as int,
        ),
    decreases n,
{
    if n > 0 {
        lemma_asks_between(header, appends, n - 1);
    }
}

/// Where the first `n` appends are all actions, their widest request is
/// their widest label.
proof fn lemma_asks_of_actions(header: Rect, appends: Seq<Append>, n: int)
    requires
        forall|k: int| 0 <= k < n ==> appends[k] is Action,
    ensures
        widest_ask(header, appends, n) == widest_label(appends, 0, n),
    decreases n,
{
    if n > 0 {
        lemma_asks_of_actions(header, appends, n - 1);
    }
}

/// A separator is appended as wide as the widest of the header and the
/// entries above it. Later appends never narrow it, and leave its width
/// alone as long as no label appended after it is wider.
pub proof fn lemma_separator_width(header: Rect, appends: Seq<Append>, n: int, i: int)
    requires
        0 <= i < n <= appends.len(),
        appends[i] is Separator,
    ensures
        layout(header, appends, i + 1)[i].width == widest(
            layout(header, appends, i),
            i,
            header.width as int,
        ),
        layout(header, appends, n)[i].width >= layout(header, appends, i + 1)[i].width,
        layout(header, appends, n)[i].width == layout(header, appends, i + 1)[i].width
            <==> widest_label(appends, i + 1, n) <= layout(header, appends, i + 1)[i].width,
{
    lemma_layout_widths(header, appends, n);
    lemma_layout_widths(header, appends, i + 1);
    lemma_layout_len(header, appends, i);
    lemma_widest_bounds(layout(header, appends, i), i, header.width as int);
    lemma_widest_label_bounds(appends, i + 1, n);
    assert(widest_label(appends, i + 1, i + 1) == 0);
}

/// Every entry of a menu whose header stays put has the header's column
/// and height, and sits `i + 1` header heights below the header's top, as
/// far as an `i32` can tell.
pub proof fn lemma_layout_rows(header: Rect, appends: Seq<Append>, n: int)
    requires
        0 <= n <= appends.len(),
    ensures
        layout(header, appends, n).len() == n,
        heights(layout(header, appends, n), n) == n * header.height,
        forall|i: int|
            0 <= i < n ==> {
                let rect = #[trigger] layout(header, appends, n)[i];
                &&& rect.x == header.x
                &&& rect.height == header.height
                &&& rect.y == clamp_i32(header.y + (i + 1) * header.height)
            },
    decreases n,
{
    if n > 0 {
        let m = n - 1;
        let before = layout(header, appends, m);
        let after = layout(header, appends, n);
        lemma_layout_rows(header, appends, m);
        assert((m + 1) * header.height == m * header.height + header.height) by (nonlinear_arith);
        assert(after.len() == n);
        assert forall|i: int| 0 <= i < m implies after[i].x == before[i].x && after[i].y
            == before[i].y && after[i].height == before[i].height by {}
        lemma_heights_of_prefix(after, before, m);
    } else {
        assert(0 * header.height == 0) by (nonlinear_arith);
    }
}

/// Stacking. In a menu whose header stays put, the first entry starts
/// where the header ends and each further entry where the one above it
/// ends, as long as the whole stack ends within the `i32` range.
pub proof fn lemma_layout_is_stacked(header: Rect, appends: Seq<Append>, n: int)
    requires
        0 <= n <= appends.len(),
        header.y + n * header.height <= i32::MAX,
    ensures
        n > 0 ==> layout(header, appends, n)[0].y == header.y + header.height,
        forall|i: int|
            0 <= i && i + 1 < n ==> (#[trigger] layout(header, appends, n)[i + 1]).y == layout(
                header,
                appends,
                n,
            )[i].y + layout(header, appends, n)[i].height,
{
    lemma_layout_rows(header, appends, n);
    let rects = layout(header, appends, n);
    assert forall|i: int| 0 <= i < n implies (#[trigger] rects[i]).y == header.y + (i + 1)
        * header.height by {
        assert(0 <= (i + 1) * header.height <= n * header.height) by (nonlinear_arith)
            requires
                0 <= i < n,
                0 <= header.height,
        ;
    }
    assert forall|i: int| 0 <= i && i + 1 < n implies (#[trigger] rects[i + 1]).y == rects[i].y
        + rects[i].height by {
        assert((i + 2) * header.height == (i + 1) * header.height + header.height)
            by (nonlinear_arith);
    }
    if n > 0 {
        assert(1 * header.height == header.height) by (nonlinear_arith);
    }
}

} // verus!
