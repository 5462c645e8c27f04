//! Height of a settings page, and the rules that its layout has to keep.
use vstd::prelude::*;

use crate::geometry::{max_len, min_len, Point, Rect, Size};
#[allow(unused_imports)]
use crate::geometry;

verus! {

/// Height that a page needs for content that reaches up to `content_max_y`.
pub open spec fn required_height(content: int, minimum: int, top: int, bottom: int) -> int {
    geometry::max_of(geometry::max_of(content + bottom, minimum), top + bottom + 1_000)
}

/// The height that the content of a page needs, which is at least that of the
/// viewport.
pub fn required_document_height(
    content_max_y: i64,
    minimum_height: i64,
    top_padding: i64,
    bottom_padding: i64,
) -> (r: i64)
    requires
        geometry::near(content_max_y as int),
        geometry::in_range(top_padding as int),
        geometry::in_range(bottom_padding as int),
    ensures
        r == required_height(
            content_max_y as int,
            minimum_height as int,
            top_padding as int,
            bottom_padding as int,
        ),
{
    max_len(
        max_len(content_max_y + bottom_padding, minimum_height),
        top_padding + bottom_padding + 1_000,
    )
}

pub open spec fn stable_height(current: int, required: int) -> int {
    geometry::max_of(geometry::max_of(current, required), 1_000)
}

/// The height of a page whose children are already placed: it grows where it must
/// and never shrinks.
pub fn stable_document_height(current_height: i64, required_height: i64) -> (r: i64)
    ensures
        r == stable_height(current_height as int, required_height as int),
{
    max_len(max_len(current_height, required_height), 1_000)
}

/// Growing never takes height away, and growing twice is growing once.
pub proof fn stable_height_never_shrinks(current: int, required: int)
    ensures
        stable_height(current, required) >= current,
        stable_height(current, required) >= required,
        stable_height(stable_height(current, required), required) == stable_height(
            current,
            required,
        ),
{
}

/// The upper edge of the highest of some frames, not below zero.
pub open spec fn highest(frames: Seq<Rect>) -> int
    decreases frames.len(),
{
    if frames.len() == 0 {
        0
    } else {
        geometry::max_of(highest(frames.drop_last()), frames.last().top())
    }
}

/// The new height of a page that grows with its content, and whether that is a change
/// worth making.
pub fn fit_settings_document_height(
    current: Option<i64>,
    children: &Vec<Rect>,
    minimum_height: i64,
    top_padding: i64,
    bottom_padding: i64,
) -> (r: (i64, bool))
    requires
        current matches Some(c) ==> geometry::near(c as int),
        forall|i: int| 0 <= i < children@.len() ==> (#[trigger] children@[i]).valid(),
        geometry::near(minimum_height as int),
        geometry::in_range(top_padding as int),
        geometry::in_range(bottom_padding as int),
    ensures
        match current {
            None => r.0 == geometry::max_of(minimum_height as int, 1_000) && !r.1,
            Some(c) => {
                let required = required_height(
                    highest(children@),
                    minimum_height as int,
                    top_padding as int,
                    bottom_padding as int,
                );
                &&& r.0 == stable_height(c as int, required)
                &&& r.1 == (r.0 - c > 500 || c - r.0 > 500)
            },
        },
{
    let current = match current {
        Some(c) => c,
        None => {
            return (max_len(minimum_height, 1_000), false);
        },
    };
    let mut max_y: i64 = 0;
    let mut i: usize = 0;
    while i < children.len()
        invariant
            i <= children@.len(),
            forall|k: int| 0 <= k < children@.len() ==> (#[trigger] children@[k]).valid(),
            max_y == highest(children@.take(i as int)),
            0 <= max_y <= 2 * geometry::LIMIT,
        decreases children@.len() - i,
    {
        assert(children@.take(i + 1).drop_last() =~= children@.take(i as int));
        assert(children@[i as int].valid());
        max_y = max_len(max_y, children[i].y + children[i].h);
        i += 1;
    }
    assert(children@.take(children@.len() as int) =~= children@);
    let required = required_document_height(max_y, minimum_height, top_padding, bottom_padding);
    let height = stable_document_height(current, required);
    (height, height - current > 500)
}

/// A child of a page.
#[derive(Clone, Copy, Debug, PartialEq, Eq, Structural)]
pub struct PageChild {
    pub view: usize,
    pub frame: Rect,
    /// The child keeps its distance from the upper edge when the page changes.
    pub top_anchored: bool,
}

/// Whether a child takes part in fitting: it is there and has some extent.
pub open spec fn counts(child: PageChild) -> bool {
    child.view != 0 && !(child.frame.w <= 0 && child.frame.h <= 0)
}

/// The lower edge of the lowest child that counts.
pub open spec fn lowest(children: Seq<PageChild>) -> Option<int>
    decreases children.len(),
{
    if children.len() == 0 {
        None
    } else {
        let rest = lowest(children.drop_last());
        let child = children.last();
        if !counts(child) {
            rest
        } else {
            match rest {
                None => Some(child.frame.y as int),
                Some(y) => Some(geometry::min_of(y, child.frame.y as int)),
            }
        }
    }
}

/// The height of a page that ends a given padding below its lowest child. Differences of
/// up to half a point, and a page without content, are left alone. In any case the page
/// is not lower than the viewport.
pub open spec fn fitted_height(
    height: int,
    children: Seq<PageChild>,
    minimum: int,
    padding: int,
) -> int {
    match lowest(children) {
        None => geometry::max_of(height, minimum),
        Some(y) => {
            let surplus = y - padding;
            if -500 <= surplus <= 500 {
                geometry::max_of(height, minimum)
            } else {
                geometry::max_of(height - surplus, minimum)
            }
        },
    }
}

/// Whether a page has content whose end is off by more than half a point.
pub open spec fn misfits(children: Seq<PageChild>, padding: int) -> bool {
    lowest(children) matches Some(y) && !(-500 <= y - padding <= 500)
}

/// A child after the page has become lower by `shift`: the whole page moves as one
/// block, some children by themselves and the others by hand.
pub open spec fn shifted(child: PageChild, shift: int) -> PageChild {
    PageChild { frame: Rect { y: (child.frame.y - shift) as i64, ..child.frame }, ..child }
}

/// The children that have to be moved by hand: those that do not follow the upper
/// edge by themselves.
pub open spec fn moves(children: Seq<PageChild>, shift: int) -> Seq<PageChild>
    decreases children.len(),
{
    if children.len() == 0 {
        seq![]
    } else {
        let rest = moves(children.drop_last(), shift);
        let child = children.last();
        if counts(child) && !child.top_anchored { rest.push(shifted(child, shift)) } else { rest }
    }
}

/// How a page is fitted to its content.
pub struct PageFit {
    pub height: i64,
    /// Whether the page changes at all.
    pub changed: bool,
    /// Children with their new frames.
    pub moved: Vec<PageChild>,
}

/// Fits a page to its content. Without a page the height is that of the viewport.
pub fn fit_page_document_height(
    height: Option<i64>,
    children: &Vec<PageChild>,
    minimum_height: i64,
    bottom_padding: i64,
) -> (r: PageFit)
    requires
        height matches Some(h) ==> geometry::in_range(h as int),
        forall|i: int| 0 <= i < children@.len() ==> (#[trigger] children@[i]).frame.valid(),
        geometry::in_range(minimum_height as int),
        geometry::in_range(bottom_padding as int),
    ensures
        match height {
            None => {
                &&& r.height == geometry::max_of(minimum_height as int, 1_000)
                &&& !r.changed
                &&& r.moved@ == Seq::<PageChild>::empty()
            },
            Some(h) => {
                let target = fitted_height(
                    h as int,
                    children@,
                    minimum_height as int,
                    bottom_padding as int,
                );
                &&& r.height == target
                &&& r.height >= minimum_height
                &&& r.changed == (misfits(children@, bottom_padding as int) || target != h)
                &&& r.moved@ == if r.changed {
                    moves(children@, h - target)
                } else {
                    seq![]
                }
            },
        },
{
    let height = match height {
        Some(h) => h,
        None => {
            return PageFit {
                height: max_len(minimum_height, 1_000),
                changed: false,
                moved: Vec::new(),
            };
        },
    };
    let mut low: Option<i64> = None;
    let mut i: usize = 0;
    while i < children.len()
        invariant
            i <= children@.len(),
            forall|k: int| 0 <= k < children@.len() ==> (#[trigger] children@[k]).frame.valid(),
            match low {
                None => lowest(children@.take(i as int)) is None,
                Some(y) => lowest(children@.take(i as int)) == Some(y as int)
                    && geometry::in_range(y as int),
            },
        decreases children@.len() - i,
    {
        assert(children@.take(i + 1).drop_last() =~= children@.take(i as int));
        assert(children@[i as int].frame.valid());
        let child = children[i];
        if child.view != 0 && !(child.frame.w <= 0 && child.frame.h <= 0) {
            low = match low {
                None => Some(child.frame.y),
                Some(y) => Some(min_len(y, child.frame.y)),
            };
        }
        i += 1;
    }
    assert(children@.take(children@.len() as int) =~= children@);
    let surplus: i64 = match low {
        None => 0,
        Some(y) => y - bottom_padding,
    };
    let misfit = surplus < -500 || surplus > 500;
    let target = max_len(if misfit { height - surplus } else { height }, minimum_height);
    if !misfit && target == height {
        return PageFit { height, changed: false, moved: Vec::new() };
    }
    let shift = height - target;
    let mut moved: Vec<PageChild> = Vec::new();
    let mut j: usize = 0;
    while j < children.len()
        invariant
            j <= children@.len(),
            forall|k: int| 0 <= k < children@.len() ==> (#[trigger] children@[k]).frame.valid(),
            geometry::near(shift as int),
            moved@ == moves(children@.take(j as int), shift as int),
        decreases children@.len() - j,
    {
        assert(children@.take(j + 1).drop_last() =~= children@.take(j as int));
        assert(children@[j as int].frame.valid());
        let child = children[j];
        if child.view != 0 && !(child.frame.w <= 0 && child.frame.h <= 0) && !child.top_anchored {
            moved.push(
                PageChild {
                    view: child.view,
                    frame: Rect::new(
                        child.frame.x,
                        child.frame.y - shift,
                        child.frame.w,
                        child.frame.h,
                    ),
                    top_anchored: child.top_anchored,
                },
            );
        }
        j += 1;
    }
    assert(children@.take(children@.len() as int) =~= children@);
    PageFit { height: target, changed: true, moved }
}

/// The children of a page once it has become lower by `shift`.
pub open spec fn all_shifted(children: Seq<PageChild>, shift: int) -> Seq<PageChild> {
    children.map_values(|c: PageChild| shifted(c, shift))
}

proof fn lowest_shifts_too(children: Seq<PageChild>, shift: int)
    requires
        geometry::near(shift),
        forall|i: int| 0 <= i < children.len() ==> (#[trigger] children[i]).frame.valid(),
    ensures
        match lowest(children) {
            None => lowest(all_shifted(children, shift)) is None,
            Some(y) => lowest(all_shifted(children, shift)) == Some(y - shift),
        },
    decreases children.len(),
{
    if children.len() > 0 {
        let rest = children.drop_last();
        assert forall|i: int| 0 <= i < rest.len() implies (#[trigger] rest[i]).frame.valid() by {
            assert(rest[i] == children[i]);
        }
        lowest_shifts_too(rest, shift);
        assert(all_shifted(children, shift).drop_last() =~= all_shifted(rest, shift));
        assert(children[children.len() - 1].frame.valid());
        assert(counts(children.last()) == counts(shifted(children.last(), shift)));
    }
}

/// A fitted page is not lower than the viewport, and fitting it again changes nothing.
/// Content that was off ends exactly the padding above the end of the page, or higher
/// where the viewport keeps the page up; other content is off by half a point at most,
/// or is higher for the same reason.
pub proof fn fitting_is_stable(
    height: int,
    children: Seq<PageChild>,
    minimum: int,
    padding: int,
)
    requires
        geometry::in_range(height),
        geometry::in_range(minimum),
        geometry::in_range(padding),
        forall|i: int| 0 <= i < children.len() ==> (#[trigger] children[i]).frame.valid(),
    ensures
        ({
            let target = fitted_height(height, children, minimum, padding);
            let after = all_shifted(children, height - target);
            &&& target >= minimum
            &&& lowest(after) is Some <==> lowest(children) is Some
            &&& misfits(children, padding) ==> {
                &&& target > minimum ==> lowest(after) == Some(padding)
                &&& lowest(after) matches Some(y) && y >= padding
            }
            &&& !misfits(children, padding) ==> {
                &&& target > minimum ==> !misfits(after, padding)
                &&& lowest(after) matches Some(y) ==> y >= padding - 500
            }
            &&& fitted_height(target, after, minimum, padding) == target
        }),
{
    let target = fitted_height(height, children, minimum, padding);
    lowest_is_valid(children);
    lowest_shifts_too(children, height - target);
}

proof fn lowest_is_valid(children: Seq<PageChild>)
    requires
        forall|i: int| 0 <= i < children.len() ==> (#[trigger] children[i]).frame.valid(),
    ensures
        lowest(children) matches Some(y) ==> geometry::in_range(y),
    decreases children.len(),
{
    if children.len() > 0 {
        let rest = children.drop_last();
        assert forall|i: int| 0 <= i < rest.len() implies (#[trigger] rest[i]).frame.valid() by {
            assert(rest[i] == children[i]);
        }
        lowest_is_valid(rest);
        assert(children[children.len() - 1].frame.valid());
    }
}

/// Whether fitting a page changed its height by more than half a point, so that its
/// scroller has to follow.
pub fn refit_settings_page(before: i64, after: i64) -> (r: bool)
    requires
        geometry::near(before as int),
        geometry::near(after as int),
    ensures
        r == !(-500 <= after - before <= 500),
{
    after - before > 500 || before - after > 500
}

/// The scroll position at which the upper end of a page is visible.
pub fn scroll_page_to_top(document_h: i64, clip_h: i64) -> (r: i64)
    requires
        geometry::near(document_h as int),
        geometry::near(clip_h as int),
    ensures
        r == geometry::max_of(document_h - clip_h, 0),
        document_h >= clip_h ==> r + clip_h == document_h,
{
    max_len(document_h - clip_h, 0)
}

/// The document of a new page and the position it is scrolled to.
pub fn make_settings_page(frame: Rect, document_h: i64, clip_h: i64) -> (r: (Size, i64))
    requires
        frame.near(),
        geometry::near(document_h as int),
        geometry::near(clip_h as int),
    ensures
        r.0.w == frame.w,
        r.0.h == geometry::max_of(document_h as int, frame.h as int),
        r.1 == geometry::max_of(r.0.h - clip_h, 0),
{
    let h = max_len(document_h, frame.h);
    (Size { w: frame.w, h }, scroll_page_to_top(h, clip_h))
}

/// Whether two frames overlap by more than `epsilon` in both directions.
pub open spec fn overlap(a: Rect, b: Rect, epsilon: int) -> bool {
    &&& geometry::min_of(a.right(), b.right()) - geometry::max_of(a.x as int, b.x as int) > epsilon
    &&& geometry::min_of(a.top(), b.top()) - geometry::max_of(a.y as int, b.y as int) > epsilon
}

/// Whether two frames overlap by more than `epsilon` in both directions.
pub fn rects_overlap(a: Rect, b: Rect, epsilon: i64) -> (r: bool)
    requires
        a.near(),
        b.near(),
    ensures
        r == overlap(a, b, epsilon as int),
{
    let left = max_len(a.x, b.x);
    let right = min_len(a.x + a.w, b.x + b.w);
    let bottom = max_len(a.y, b.y);
    let top = min_len(a.y + a.h, b.y + b.h);
    right - left > epsilon && top - bottom > epsilon
}

/// Whether a frame lies inside another one with a margin on each side; a negative
/// margin lets it stick out.
pub open spec fn inside(outer: Rect, inner: Rect, margin: int) -> bool {
    &&& inner.x >= outer.x + margin
    &&& inner.y >= outer.y + margin
    &&& inner.right() <= outer.right() - margin
    &&& inner.top() <= outer.top() - margin
}

/// Whether a frame lies inside another one with a margin on each side.
pub fn rect_inside(outer: Rect, inner: Rect, margin: i64) -> (r: bool)
    requires
        outer.near(),
        inner.near(),
        geometry::near(margin as int),
    ensures
        r == inside(outer, inner, margin as int),
{
    inner.x >= outer.x + margin && inner.y >= outer.y + margin && inner.x + inner.w <= outer.x
        + outer.w - margin && inner.y + inner.h <= outer.y + outer.h - margin
}

/// Overlapping does not depend on the order of the frames, and a frame inside another
/// one never overlaps something that the outer one clears.
pub proof fn overlap_laws(a: Rect, b: Rect, c: Rect, epsilon: int)
    ensures
        overlap(a, b, epsilon) == overlap(b, a, epsilon),
        inside(a, c, 0) && !overlap(a, b, epsilon) ==> !overlap(c, b, epsilon),
{
}

/// A view of a page, with the views in it.
pub struct ViewNode {
    pub hidden: bool,
    /// Frame in the coordinates of the parent view.
    pub frame: Rect,
    pub interactive: bool,
    pub is_text: bool,
    /// The height that the text of the view needs, where that can be measured.
    pub text_height: Option<i64>,
    pub children: Vec<ViewNode>,
}

/// A view that takes part in the check of a page's layout.
#[derive(Clone, Copy, Debug, PartialEq, Eq, Structural)]
pub struct LayoutEntry {
    /// The number of the view among its siblings.
    pub index: usize,
    /// Frame in the coordinates of the page.
    pub frame: Rect,
    pub interactive: bool,
    pub text_height: Option<i64>,
}

/// A view together with where it is in the page.
pub open spec fn placed(node: ViewNode, x: int, y: int) -> Rect {
    Rect { x: (x + node.frame.x) as i64, y: (y + node.frame.y) as i64, ..node.frame }
}

/// The entries that one view adds, before those of its children: text and controls
/// that do not belong to another control.
pub open spec fn own_entry(
    node: ViewNode,
    index: int,
    x: int,
    y: int,
    in_control: bool,
) -> Seq<LayoutEntry> {
    if !in_control && (node.interactive || node.is_text) {
        seq![
            LayoutEntry {
                index: index as usize,
                frame: placed(node, x, y),
                interactive: node.interactive,
                text_height: if node.is_text { node.text_height } else { None },
            },
        ]
    } else {
        seq![]
    }
}

/// The entries of the first `n` of some sibling views, each followed by those of its
/// own children. Hidden views add nothing.
pub open spec fn entries_of(
    nodes: Seq<ViewNode>,
    n: int,
    x: int,
    y: int,
    in_control: bool,
) -> Seq<LayoutEntry>
    decreases nodes, n,
{
    if n <= 0 || n > nodes.len() {
        seq![]
    } else {
        let before = entries_of(nodes, n - 1, x, y, in_control);
        let node = nodes[n - 1];
        if node.hidden {
            before
        } else {
            let frame = placed(node, x, y);
            before + own_entry(node, n - 1, x, y, in_control) + entries_of(
                node.children@,
                node.children@.len() as int,
                frame.x as int,
                frame.y as int,
                in_control || node.interactive,
            )
        }
    }
}

/// Whether the first `n` of some sibling views, and everything in them, are placed
/// within the range that layouts work in.
pub open spec fn in_reach(nodes: Seq<ViewNode>, n: int, x: int, y: int) -> bool
    decreases nodes, n,
{
    if n <= 0 || n > nodes.len() {
        true
    } else {
        let node = nodes[n - 1];
        let frame = placed(node, x, y);
        &&& in_reach(nodes, n - 1, x, y)
        &&& node.frame.valid()
        &&& geometry::in_range(x + node.frame.x)
        &&& geometry::in_range(y + node.frame.y)
        &&& node.text_height matches Some(h) ==> geometry::in_range(h as int)
        &&& in_reach(node.children@, node.children@.len() as int, frame.x as int, frame.y as int)
    }
}

proof fn reach_of_prefix(nodes: Seq<ViewNode>, n: int, m: int, x: int, y: int)
    requires
        0 <= m <= n <= nodes.len(),
        in_reach(nodes, n, x, y),
    ensures
        in_reach(nodes, m, x, y),
    decreases n - m,
{
    if m < n {
        reach_of_prefix(nodes, n - 1, m, x, y);
    }
}

/// Collects the entries of a list of sibling views with the views in them, in the
/// coordinates of the page.
pub fn collect_debug_layout(
    nodes: &Vec<ViewNode>,
    parent_origin: Point,
    entries: &mut Vec<LayoutEntry>,
    inside_interactive: bool,
)
    requires
        parent_origin.valid(),
        in_reach(
            nodes@,
            nodes@.len() as int,
            parent_origin.x as int,
            parent_origin.y as int,
        ),
    ensures
        final(entries)@ == old(entries)@ + entries_of(
            nodes@,
            nodes@.len() as int,
            parent_origin.x as int,
            parent_origin.y as int,
            inside_interactive,
        ),
    decreases nodes,
{
    let ghost before = entries@;
    let ghost x = parent_origin.x as int;
    let ghost y = parent_origin.y as int;
    let mut i: usize = 0;
    assert(entries@ =~= before + entries_of(nodes@, 0, x, y, inside_interactive));
    while i < nodes.len()
        invariant
            i <= nodes@.len(),
            x == parent_origin.x,
            y == parent_origin.y,
            parent_origin.valid(),
            in_reach(nodes@, nodes@.len() as int, x, y),
            entries@ == before + entries_of(nodes@, i as int, x, y, inside_interactive),
        decreases nodes@.len() - i,
    {
        proof {
            reach_of_prefix(nodes@, nodes@.len() as int, i + 1, x, y);
        }
        let node = &nodes[i];
        if !node.hidden {
            let frame = Rect::new(
                parent_origin.x + node.frame.x,
                parent_origin.y + node.frame.y,
                node.frame.w,
                node.frame.h,
            );
            if !inside_interactive && (node.interactive || node.is_text) {
                let text_height = if node.is_text { node.text_height } else { None };
                entries.push(
                    LayoutEntry { index: i, frame, interactive: node.interactive, text_height },
                );
            }
            assert(entries@ =~= before + entries_of(nodes@, i as int, x, y, inside_interactive)
                + own_entry(*node, i as int, x, y, inside_interactive));
            assert(decreases_to!(nodes => nodes@[i as int].children));
            collect_debug_layout(
                &node.children,
                Point { x: frame.x, y: frame.y },
                entries,
                inside_interactive || node.interactive,
            );
        }
        assert(entries@ =~= before + entries_of(nodes@, i + 1, x, y, inside_interactive));
        i += 1;
    }
}

/// A fault in the layout of a page.
#[derive(Clone, Copy, Debug, PartialEq, Eq, Structural)]
pub enum LayoutFault {
    /// A view sticks out of the page.
    Escapes { entry: LayoutEntry },
    /// A text does not fit the height of its view.
    TextTooHigh { entry: LayoutEntry, required: i64 },
    /// A control overlaps another view.
    Overlap { left: LayoutEntry, right: LayoutEntry },
}

/// The faults of one view: it may stick out by one point, and its text may lack one
/// point.
pub open spec fn faults_of(page: Rect, entry: LayoutEntry) -> Seq<LayoutFault> {
    let escape: Seq<LayoutFault> = if inside(page, entry.frame, -1_000) {
        seq![]
    } else {
        seq![LayoutFault::Escapes { entry }]
    };
    match entry.text_height {
        Some(required) if required > entry.frame.h + 1_000 => escape.push(
            LayoutFault::TextTooHigh { entry, required },
        ),
        _ => escape,
    }
}

/// Whether two views may not stand as they do: one of them is a control, and they
/// overlap by more than half a point.
pub open spec fn collide(a: LayoutEntry, b: LayoutEntry) -> bool {
    (a.interactive || b.interactive) && overlap(a.frame, b.frame, 500)
}

pub open spec fn single_faults(page: Rect, entries: Seq<LayoutEntry>, n: int) -> Seq<LayoutFault>
    decreases n,
{
    if n <= 0 {
        seq![]
    } else {
        single_faults(page, entries, n - 1) + faults_of(page, entries[n - 1])
    }
}

/// The overlaps of one view with the views from `from` up to `n`.
pub open spec fn faults_with(
    entries: Seq<LayoutEntry>,
    left: int,
    from: int,
    n: int,
) -> Seq<LayoutFault>
    decreases n - from,
{
    if n <= from {
        seq![]
    } else {
        let rest = faults_with(entries, left, from, n - 1);
        if collide(entries[left], entries[n - 1]) {
            rest.push(LayoutFault::Overlap { left: entries[left], right: entries[n - 1] })
        } else {
            rest
        }
    }
}

pub open spec fn pair_faults(entries: Seq<LayoutEntry>, n: int) -> Seq<LayoutFault>
    decreases n,
{
    if n <= 0 {
        seq![]
    } else {
        pair_faults(entries, n - 1) + faults_with(entries, n - 1, n, entries.len() as int)
    }
}

/// Checks the layout of a page: every view inside the page, every text with enough
/// height, and no control across another view.
pub fn debug_validate_settings_page(document: Size, entries: &Vec<LayoutEntry>) -> (r: Vec<
    LayoutFault,
>)
    requires
        document.valid(),
        forall|i: int| 0 <= i < entries@.len() ==> (#[trigger] entries@[i]).frame.near(),
    ensures
        ({
            let page = Rect { x: 0, y: 0, w: document.w, h: document.h };
            let n = entries@.len() as int;
            r@ == single_faults(page, entries@, n) + pair_faults(entries@, n)
        }),
{
    let page = Rect::new(0, 0, document.w, document.h);
    let mut faults: Vec<LayoutFault> = Vec::new();
    let mut i: usize = 0;
    while i < entries.len()
        invariant
            i <= entries@.len(),
            page.near(),
            forall|k: int| 0 <= k < entries@.len() ==> (#[trigger] entries@[k]).frame.near(),
            faults@ == single_faults(page, entries@, i as int),
        decreases entries@.len() - i,
    {
        let entry = entries[i];
        let ghost before = faults@;
        if !rect_inside(page, entry.frame, -1_000) {
            faults.push(LayoutFault::Escapes { entry });
        }
        if let Some(required) = entry.text_height {
            if required > entry.frame.h + 1_000 {
                faults.push(LayoutFault::TextTooHigh { entry, required });
            }
        }
        assert(faults@ =~= before + faults_of(page, entry));
        i += 1;
    }
    let ghost singles = faults@;
    let mut left: usize = 0;
    assert(faults@ =~= singles + pair_faults(entries@, 0));
    while left < entries.len()
        invariant
            left <= entries@.len(),
            forall|k: int| 0 <= k < entries@.len() ==> (#[trigger] entries@[k]).frame.near(),
            faults@ == singles + pair_faults(entries@, left as int),
        decreases entries@.len() - left,
    {
        let ghost before = faults@;
        let a = entries[left];
        let mut right: usize = left + 1;
        assert(faults@ =~= before + faults_with(entries@, left as int, left + 1, left + 1));
        while right < entries.len()
            invariant
                left < right <= entries@.len(),
                a == entries@[left as int],
                forall|k: int| 0 <= k < entries@.len() ==> (#[trigger] entries@[k]).frame.near(),
                faults@ == before + faults_with(
                    entries@,
                    left as int,
                    left + 1,
                    right as int,
                ),
            decreases entries@.len() - right,
        {
            let b = entries[right];
            if (a.interactive || b.interactive) && rects_overlap(a.frame, b.frame, 500) {
                faults.push(LayoutFault::Overlap { left: a, right: b });
            }
            assert(faults@ =~= before + faults_with(
                entries@,
                left as int,
                left + 1,
                right + 1,
            ));
            right += 1;
        }
        assert(faults@ =~= singles + pair_faults(entries@, left + 1));
        left += 1;
    }
    faults
}

/// A page whose check finds nothing has every view inside, every text with enough
/// height, and no control across another view.
pub proof fn clean_pages_keep_the_rules(page: Rect, entries: Seq<LayoutEntry>, i: int, j: int)
    requires
        single_faults(page, entries, entries.len() as int) + pair_faults(
            entries,
            entries.len() as int,
        ) == Seq::<LayoutFault>::empty(),
        0 <= i < j < entries.len(),
    ensures
        inside(page, entries[i].frame, -1_000),
        entries[i].text_height matches Some(h) ==> h <= entries[i].frame.h + 1_000,
        !collide(entries[i], entries[j]),
{
    let n = entries.len() as int;
    let all = single_faults(page, entries, n) + pair_faults(entries, n);
    assert(all.len() == 0);
    no_single_faults(page, entries, n, i);
    no_pair_faults(entries, n, i);
    no_faults_with(entries, i, i + 1, n, j);
}

proof fn no_single_faults(page: Rect, entries: Seq<LayoutEntry>, n: int, i: int)
    requires
        0 <= i < n <= entries.len(),
        single_faults(page, entries, n).len() == 0,
    ensures
        faults_of(page, entries[i]).len() == 0,
    decreases n,
{
    if i < n - 1 {
        no_single_faults(page, entries, n - 1, i);
    }
}

proof fn no_pair_faults(entries: Seq<LayoutEntry>, n: int, i: int)
    requires
        0 <= i < n <= entries.len(),
        pair_faults(entries, n).len() == 0,
    ensures
        faults_with(entries, i, i + 1, entries.len() as int).len() == 0,
    decreases n,
{
    if i < n - 1 {
        no_pair_faults(entries, n - 1, i);
    }
}

proof fn no_faults_with(entries: Seq<LayoutEntry>, left: int, from: int, n: int, j: int)
    requires
        from <= j < n <= entries.len(),
        0 <= left < entries.len(),
        faults_with(entries, left, from, n).len() == 0,
    ensures
        !collide(entries[left], entries[j]),
    decreases n - from,
{
    if j < n - 1 {
        no_faults_with(entries, left, from, n - 1, j);
    }
}

/// A page is high enough for its content and the padding below it, for the viewport, and for
/// both paddings, and no higher than one of these asks for.
pub proof fn pages_are_as_high_as_needed(content: int, minimum: int, top: int, bottom: int)
    ensures
        ({
            let h = required_height(content, minimum, top, bottom);
            &&& h >= content + bottom && h >= minimum && h >= top + bottom + 1_000
            &&& h == content + bottom || h == minimum || h == top + bottom + 1_000
        }),
        stable_height(content, minimum) == content || stable_height(content, minimum) == minimum
            || stable_height(content, minimum) == 1_000,
        stable_height(content, minimum) >= 1_000,
{
}

/// The highest of some frames is not below any of them, and is one of them or zero.
pub proof fn highest_is_above_all(frames: Seq<Rect>, i: int)
    ensures
        highest(frames) >= 0,
        0 <= i < frames.len() ==> highest(frames) >= frames[i].top(),
        highest(frames) == 0 || exists|k: int|
            0 <= k < frames.len() && highest(frames) == (#[trigger] frames[k]).top(),
    decreases frames.len(),
{
    if frames.len() > 0 {
        let rest = frames.drop_last();
        highest_is_above_all(rest, i);
        if highest(rest) != 0 {
            let k = choose|k: int| 0 <= k < rest.len() && highest(rest) == (#[trigger] rest[k]).top();
            assert(frames[k] == rest[k]);
        }
        if 0 <= i < rest.len() {
            assert(rest[i] == frames[i]);
        }
        assert(frames[frames.len() - 1] == frames.last());
    }
}

/// The lowest edge is that of a child that counts, and no such child reaches lower; a child
/// that is missing or has no extent does not count.
pub proof fn lowest_is_below_all(children: Seq<PageChild>, i: int)
    ensures
        0 <= i < children.len() && children[i].view != 0 && (children[i].frame.w > 0
            || children[i].frame.h > 0) ==> (lowest(children) matches Some(y) && y
            <= children[i].frame.y),
        lowest(children) matches Some(y) ==> exists|k: int|
            0 <= k < children.len() && (#[trigger] children[k]).frame.y == y && children[k].view
                != 0,
    decreases children.len(),
{
    if children.len() > 0 {
        let rest = children.drop_last();
        lowest_is_below_all(rest, i);
        if let Some(y) = lowest(rest) {
            let k = choose|k: int|
                0 <= k < rest.len() && (#[trigger] rest[k]).frame.y == y && rest[k].view != 0;
            assert(children[k] == rest[k]);
        }
        if 0 <= i < rest.len() {
            assert(rest[i] == children[i]);
        }
        assert(children[children.len() - 1] == children.last());
    }
}

/// A page without content keeps its height, unless the viewport is higher; one whose content
/// ends too high or too low gets as much lower or higher as that is.
pub proof fn fitting_takes_the_surplus(
    height: int,
    children: Seq<PageChild>,
    minimum: int,
    padding: int,
)
    requires
        height >= minimum,
    ensures
        lowest(children) is None ==> fitted_height(height, children, minimum, padding) == height,
        lowest(children) matches Some(y) ==> {
            &&& padding - 500 <= y <= padding + 500 ==> fitted_height(
                height,
                children,
                minimum,
                padding,
            ) == height && !misfits(children, padding)
            &&& y < padding - 500 ==> fitted_height(height, children, minimum, padding) - height
                == padding - y && misfits(children, padding)
            &&& y > padding + 500 ==> misfits(children, padding) && (fitted_height(
                height,
                children,
                minimum,
                padding,
            ) == height - (y - padding) || fitted_height(height, children, minimum, padding)
                == minimum)
        },
        lowest(children) is None ==> !misfits(children, padding),
{
}

/// Every child that counts and does not follow the upper edge by itself is moved down with the
/// page, sideways nothing moves, and nothing changes its size.
pub proof fn children_are_moved_with_their_page(children: Seq<PageChild>, shift: int, i: int)
    requires
        0 <= i < children.len(),
        children[i].view != 0,
        children[i].frame.w > 0 || children[i].frame.h > 0,
        !children[i].top_anchored,
    ensures
        exists|k: int|
            0 <= k < moves(children, shift).len() && (#[trigger] moves(children, shift)[k])
                == shifted(children[i], shift),
        moves(children, shift).len() <= children.len(),
    decreases children.len(),
{
    let last = children.len() - 1;
    let rest = moves(children.drop_last(), shift);
    moved_are_no_more_than_there_are(children, shift);
    if i == last {
        assert(moves(children, shift)[rest.len() as int] == shifted(children[i], shift));
    } else {
        assert(children.drop_last()[i] == children[i]);
        children_are_moved_with_their_page(children.drop_last(), shift, i);
        let k = choose|k: int|
            0 <= k < rest.len() && (#[trigger] rest[k]) == shifted(children[i], shift);
        assert(moves(children, shift)[k] == rest[k]);
    }
}

proof fn moved_are_no_more_than_there_are(children: Seq<PageChild>, shift: int)
    ensures
        moves(children, shift).len() <= children.len(),
    decreases children.len(),
{
    if children.len() > 0 {
        moved_are_no_more_than_there_are(children.drop_last(), shift);
    }
}

/// Only children that do not follow the upper edge by themselves are moved, and each by the
/// same distance.
pub proof fn only_loose_children_are_moved(children: Seq<PageChild>, shift: int, k: int)
    requires
        0 <= k < moves(children, shift).len(),
    ensures
        !moves(children, shift)[k].top_anchored,
        exists|i: int|
            0 <= i < children.len() && moves(children, shift)[k] == shifted(
                #[trigger] children[i],
                shift,
            ),
    decreases children.len(),
{
    let rest = moves(children.drop_last(), shift);
    let last = children.len() - 1;
    if k < rest.len() {
        only_loose_children_are_moved(children.drop_last(), shift, k);
        let i = choose|i: int|
            0 <= i < children.drop_last().len() && rest[k] == shifted(
                #[trigger] children.drop_last()[i],
                shift,
            );
        assert(children[i] == children.drop_last()[i]);
    } else {
        assert(moves(children, shift)[k] == shifted(children[last], shift));
    }
}

/// A moved child goes down by the shift and keeps everything else.
pub proof fn moved_children_keep_their_size(child: PageChild, shift: int)
    requires
        child.frame.valid(),
        geometry::near(shift),
    ensures
        ({
            let c = shifted(child, shift);
            &&& child.frame.y - c.frame.y == shift
            &&& c.frame.x == child.frame.x && c.frame.w == child.frame.w && c.frame.h
                == child.frame.h
            &&& c.view == child.view && c.top_anchored == child.top_anchored
        }),
{
}

/// Two frames overlap by more than a distance where a square larger than that fits into both.
pub proof fn overlaps_hold_a_square(a: Rect, b: Rect, epsilon: int, x: int, y: int, side: int)
    requires
        a.x <= x && x + side <= a.right() && a.y <= y && y + side <= a.top(),
        b.x <= x && x + side <= b.right() && b.y <= y && y + side <= b.top(),
        side > epsilon,
    ensures
        overlap(a, b, epsilon),
{
}

/// Frames that are beside or above each other do not overlap.
pub proof fn separate_frames_do_not_overlap(a: Rect, b: Rect, epsilon: int)
    requires
        epsilon >= 0,
        a.right() <= b.x || b.right() <= a.x || a.top() <= b.y || b.top() <= a.y,
    ensures
        !overlap(a, b, epsilon),
{
}

/// A frame inside another one keeps the margin to each of its sides; without a margin it may
/// touch them, and every frame is inside itself.
pub proof fn inside_keeps_the_margin(outer: Rect, inner: Rect, margin: int)
    ensures
        inside(outer, inner, margin) ==> inner.x - outer.x >= margin && outer.right()
            - inner.right() >= margin && inner.y - outer.y >= margin && outer.top() - inner.top()
            >= margin,
        inside(outer, outer, 0),
        inner.x - outer.x >= margin && outer.right() - inner.right() >= margin && inner.y - outer.y
            >= margin && outer.top() - inner.top() >= margin ==> inside(outer, inner, margin),
{
}

/// A view that breaks a rule is reported: one that sticks out by more than a point, and one
/// whose text lacks more than a point; a view that keeps both rules is not.
pub proof fn broken_rules_are_reported(page: Rect, entries: Seq<LayoutEntry>, i: int, n: int)
    requires
        0 <= i < n <= entries.len(),
    ensures
        ({
            let faults = single_faults(page, entries, n);
            let e = entries[i];
            &&& e.frame.x < page.x - 1_000 || e.frame.right() > page.right() + 1_000 || e.frame.y
                < page.y - 1_000 || e.frame.top() > page.top() + 1_000 ==> faults.contains(
                LayoutFault::Escapes { entry: e },
            )
            &&& e.text_height matches Some(required) ==> required > e.frame.h + 1_000
                ==> faults.contains(LayoutFault::TextTooHigh { entry: e, required })
        }),
        ({
            let e = entries[i];
            e.frame.x >= page.x - 1_000 && e.frame.right() <= page.right() + 1_000 && e.frame.y
                >= page.y - 1_000 && e.frame.top() <= page.top() + 1_000 && (
            e.text_height matches Some(required) ==> required <= e.frame.h + 1_000) ==> faults_of(
                page,
                e,
            ).len() == 0
        }),
    decreases n,
{
    let faults = single_faults(page, entries, n);
    let rest = single_faults(page, entries, n - 1);
    let e = entries[i];
    let escape = LayoutFault::Escapes { entry: e };
    if i == n - 1 {
        let own = faults_of(page, e);
        if !inside(page, e.frame, -1_000) {
            assert(own[0] == escape);
            assert(faults[rest.len() as int] == escape);
        }
        if let Some(required) = e.text_height {
            if required > e.frame.h + 1_000 {
                assert(own.last() == (LayoutFault::TextTooHigh { entry: e, required }));
                assert(faults[rest.len() + own.len() - 1] == own.last());
            }
        }
    } else {
        broken_rules_are_reported(page, entries, i, n - 1);
        if rest.contains(escape) {
            let k = choose|k: int| 0 <= k < rest.len() && rest[k] == escape;
            assert(faults[k] == escape);
        }
        if let Some(required) = e.text_height {
            let high = LayoutFault::TextTooHigh { entry: e, required };
            if rest.contains(high) {
                let k = choose|k: int| 0 <= k < rest.len() && rest[k] == high;
                assert(faults[k] == high);
            }
        }
    }
}

/// Two views collide where one of them is a control and they overlap by more than half a point;
/// two texts never do, and the order makes no difference.
pub proof fn controls_must_stand_free(a: LayoutEntry, b: LayoutEntry)
    ensures
        collide(a, b) == collide(b, a),
        !a.interactive && !b.interactive ==> !collide(a, b),
        a.interactive ==> (collide(a, b) <==> overlap(a.frame, b.frame, 500)),
{
}

/// Every collision is reported.
pub proof fn collisions_are_reported(entries: Seq<LayoutEntry>, i: int, j: int, n: int)
    requires
        0 <= i < j < entries.len(),
        i < n <= entries.len(),
        collide(entries[i], entries[j]),
    ensures
        pair_faults(entries, n).contains(
            LayoutFault::Overlap { left: entries[i], right: entries[j] },
        ),
    decreases n,
{
    let fault = LayoutFault::Overlap { left: entries[i], right: entries[j] };
    let rest = pair_faults(entries, n - 1);
    let len = entries.len() as int;
    if i == n - 1 {
        collision_is_listed(entries, i, i + 1, j, len);
        let own = faults_with(entries, i, i + 1, len);
        let k = choose|k: int| 0 <= k < own.len() && own[k] == fault;
        assert(pair_faults(entries, n)[rest.len() + k] == fault);
    } else {
        collisions_are_reported(entries, i, j, n - 1);
        let k = choose|k: int| 0 <= k < rest.len() && rest[k] == fault;
        assert(pair_faults(entries, n)[k] == fault);
    }
}

proof fn collision_is_listed(entries: Seq<LayoutEntry>, left: int, from: int, j: int, n: int)
    requires
        0 <= left < from <= j < n <= entries.len(),
        collide(entries[left], entries[j]),
    ensures
        faults_with(entries, left, from, n).contains(
            LayoutFault::Overlap { left: entries[left], right: entries[j] },
        ),
    decreases n - from,
{
    let fault = LayoutFault::Overlap { left: entries[left], right: entries[j] };
    let rest = faults_with(entries, left, from, n - 1);
    if j == n - 1 {
        assert(faults_with(entries, left, from, n)[rest.len() as int] == fault);
    } else {
        collision_is_listed(entries, left, from, j, n - 1);
        let k = choose|k: int| 0 <= k < rest.len() && rest[k] == fault;
        assert(faults_with(entries, left, from, n)[k] == fault);
    }
}

/// What is inside a control is not looked at by itself, however deep it is.
pub proof fn parts_of_controls_are_left_out(nodes: Seq<ViewNode>, n: int, x: int, y: int)
    ensures
        entries_of(nodes, n, x, y, true).len() == 0,
    decreases nodes, n,
{
    if 0 < n <= nodes.len() {
        parts_of_controls_are_left_out(nodes, n - 1, x, y);
        let node = nodes[n - 1];
        let frame = placed(node, x, y);
        if !node.hidden {
            parts_of_controls_are_left_out(
                node.children@,
                node.children@.len() as int,
                frame.x as int,
                frame.y as int,
            );
        }
    }
}

/// A view that is shown and is a control or a text is looked at, in the coordinates of the
/// page; a hidden one is not, and neither is a plain container. Only a text has a height to
/// be held against its frame.
pub proof fn shown_views_are_looked_at(nodes: Seq<ViewNode>, n: int, x: int, y: int)
    requires
        0 < n <= nodes.len(),
        geometry::in_range(x),
        geometry::in_range(y),
        nodes[n - 1].frame.valid(),
    ensures
        ({
            let node = nodes[n - 1];
            let before = entries_of(nodes, n - 1, x, y, false);
            let all = entries_of(nodes, n, x, y, false);
            &&& node.hidden ==> all == before
            &&& !node.hidden && (node.interactive || node.is_text) ==> {
                let e = all[before.len() as int];
                &&& all.len() > before.len()
                &&& e.frame.x == x + node.frame.x && e.frame.y == y + node.frame.y
                &&& e.frame.w == node.frame.w && e.frame.h == node.frame.h
                &&& e.index == (n - 1) as usize
                &&& e.interactive == node.interactive
                &&& node.is_text ==> e.text_height == node.text_height
                &&& !node.is_text ==> e.text_height is None
            }
            &&& !node.hidden && node.interactive ==> all.len() == before.len() + 1
            &&& all.take(before.len() as int) == before
            &&& !node.hidden && !node.interactive && !node.is_text ==> all == before + entries_of(
                node.children@,
                node.children@.len() as int,
                x + node.frame.x,
                y + node.frame.y,
                false,
            )
        }),
{
    let node = nodes[n - 1];
    let frame = placed(node, x, y);
    parts_of_controls_are_left_out(
        node.children@,
        node.children@.len() as int,
        frame.x as int,
        frame.y as int,
    );
    let before = entries_of(nodes, n - 1, x, y, false);
    assert(entries_of(nodes, n, x, y, false).take(before.len() as int) =~= before);
    if !node.hidden && !node.interactive && !node.is_text {
        assert(before + own_entry(node, n - 1, x, y, false) =~= before);
    }
}

} // verus!
